//! What the program promises its user: laws that relate a message, or a run of
//! messages, to what is seen of the state and asked of the world outside.
pub mod adding;
pub mod addresses;
pub mod captures;
pub mod countdown;
pub mod done;
pub mod filing;
pub mod frames;
pub mod keys;
pub mod limit;
pub mod lists;
pub mod queue_dialog;
pub mod rows;
pub mod schedule;
pub mod selection;
pub mod settings;
pub mod startup;
pub mod steps;
pub mod table;
pub mod texts;
pub mod transfers;
pub mod turns;
pub mod updates;
pub mod windows;
