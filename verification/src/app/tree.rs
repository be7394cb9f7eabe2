//! The tree beside the download table.
use crate::app::{App, AppModel, TreeUiModel};
use crate::effect::{Effect, EffectModel};
use crate::rules::closes_pair;
use crate::state::{TreeSel, TreeSelModel};
use crate::text::{same, trim, trimmed};
use crate::twin::Twin;
use vstd::prelude::*;

verus! {

/// The queue that a selection names.
pub open spec fn queue_selected(sel: TreeSelModel) -> Option<Seq<char>> {
    match sel {
        TreeSelModel::Queue(q) => Some(q),
        _ => None,
    }
}

impl AppModel {
    /// A row of the tree is clicked; a second click on the same queue renames it
    /// in place.
    #[verifier::opaque]
    pub open spec fn tree_select(self, sel: TreeSelModel, ms: u64) -> AppModel {
        let s = self.with_tree(TreeUiModel { sel, renaming: None, ..self.tree });
        let name = queue_selected(sel);
        let t = s.queue_click(name, ms);
        if closes_pair(s.tree.last_click, name, ms) && name is Some {
            t.tree_rename_start(name->0)
        } else {
            t
        }
    }

    /// A queue's row becomes a text field; stock queues keep their names.
    #[verifier::opaque]
    pub open spec fn tree_rename_start(self, name: Seq<char>) -> AppModel {
        if self.queue_builtin(name, true) {
            self
        } else {
            self.with_tree(
                TreeUiModel { draft: name, renaming: Some(name), ..self.tree },
            ).emit(EffectModel::FocusField("tree-queue-rename"@))
        }
    }

    #[verifier::opaque]
    pub open spec fn tree_rename_draft(self, v: Seq<char>) -> AppModel {
        self.with_tree(TreeUiModel { draft: v, ..self.tree })
    }

    /// The draft is taken. The tree addresses a queue by its name, so a rename
    /// carries the selection over with it.
    #[verifier::opaque]
    pub open spec fn tree_rename_commit(self) -> AppModel {
        match self.tree.renaming {
            Some(old) => {
                let new = self.tree.draft;
                let s = self.with_tree(TreeUiModel { renaming: None, ..self.tree });
                let t = s.rename_queue(old, new);
                if s.may_rename(old, trimmed(new)) && t.tree.sel == TreeSelModel::Queue(old) {
                    t.with_tree(TreeUiModel { sel: TreeSelModel::Queue(trimmed(new)), ..t.tree })
                } else {
                    t
                }
            },
            None => self,
        }
    }

    /// Escape: the queue keeps its name.
    #[verifier::opaque]
    pub open spec fn tree_rename_drop(self) -> AppModel {
        self.with_tree(TreeUiModel { renaming: None, ..self.tree })
    }

    /// A branch of the tree is opened or shut.
    #[verifier::opaque]
    pub open spec fn tree_toggle(self, i: u8) -> AppModel {
        if i < 4 {
            self.with_tree(
                TreeUiModel { open: self.tree.open.update(i as int, !self.tree.open[i as int]), ..self.tree },
            )
        } else {
            self
        }
    }
}

impl App {
    fn point_tree(&mut self, sel: TreeSel)
        ensures
            final(self)@ == old(self)@.with_tree(
                (TreeUiModel { sel: sel@, renaming: None, ..old(self)@.tree }),
            ),
    {
        proof {
            reveal(App::model);
        }
        self.tree.sel = sel;
        self.tree.renaming = None;
    }

    pub(crate) fn tree_select(&mut self, sel: TreeSel, ms: u64)
        ensures
            final(self)@ == old(self)@.tree_select(sel@, ms),
    {
        proof {
            reveal(AppModel::tree_select);
        }
        let name = match &sel {
            TreeSel::Queue(q) => Some(q.clone()),
            _ => None,
        };
        self.point_tree(sel);
        match name {
            Some(q) => {
                if self.queue_click(Some(q.as_str()), ms) {
                    self.tree_rename_start(q);
                }
            },
            None => {
                let double = self.queue_click(None, ms);
            },
        }
    }

    fn open_tree_field(&mut self, name: String)
        ensures
            final(self)@ == old(self)@.with_tree(
                (TreeUiModel { draft: name@, renaming: Some(name@), ..old(self)@.tree }),
            ),
    {
        proof {
            reveal(App::model);
        }
        self.tree.draft = name.clone();
        self.tree.renaming = Some(name);
    }

    pub(crate) fn tree_rename_start(&mut self, name: String)
        ensures
            final(self)@ == old(self)@.tree_rename_start(name@),
    {
        proof {
            reveal(AppModel::tree_rename_start);
        }
        if !self.queue_builtin(&name, true) {
            self.open_tree_field(name);
            self.emit(Effect::FocusField("tree-queue-rename".to_owned()));
        }
    }

    pub(crate) fn tree_rename_draft(&mut self, v: String)
        ensures
            final(self)@ == old(self)@.tree_rename_draft(v@),
    {
        proof {
            reveal(AppModel::tree_rename_draft);
            reveal(App::model);
        }
        self.tree.draft = v;
    }

    fn tree_draft(&self) -> (r: (Option<String>, String))
        ensures
            r.0.deep_view() == self@.tree.renaming,
            r.1@ == self@.tree.draft,
    {
        proof {
            reveal(App::model);
        }
        (self.tree.renaming.twin(), self.tree.draft.clone())
    }

    fn tree_shows_queue(&self, name: &str) -> (r: bool)
        ensures
            r == (self@.tree.sel == TreeSelModel::Queue(name@)),
    {
        proof {
            reveal(App::model);
        }
        match &self.tree.sel {
            TreeSel::Queue(q) => same(q, name),
            _ => false,
        }
    }

    fn move_tree(&mut self, name: String)
        ensures
            final(self)@ == old(self)@.with_tree(
                (TreeUiModel { sel: TreeSelModel::Queue(name@), ..old(self)@.tree }),
            ),
    {
        proof {
            reveal(App::model);
        }
        self.tree.sel = TreeSel::Queue(name);
    }

    pub(crate) fn tree_rename_commit(&mut self)
        ensures
            final(self)@ == old(self)@.tree_rename_commit(),
    {
        proof {
            reveal(AppModel::tree_rename_commit);
            reveal(AppModel::tree_rename_drop);
        }
        let (renaming, new) = self.tree_draft();
        let name = match renaming {
            Some(n) => n,
            None => return ,
        };
        self.tree_rename_drop();
        if self.rename_queue(&name, &new) && self.tree_shows_queue(&name) {
            self.move_tree(trim(&new));
        }
    }

    pub(crate) fn tree_rename_drop(&mut self)
        ensures
            final(self)@ == old(self)@.tree_rename_drop(),
    {
        proof {
            reveal(AppModel::tree_rename_drop);
            reveal(App::model);
        }
        self.tree.renaming = None;
    }

    pub(crate) fn tree_toggle(&mut self, i: u8)
        ensures
            final(self)@ == old(self)@.tree_toggle(i),
    {
        proof {
            reveal(AppModel::tree_toggle);
            reveal(App::model);
        }
        if i < 4 {
            let k = i as usize;
            let ghost before = self.tree.open@;
            self.tree.open[k] = !self.tree.open[k];
            assert(self.tree.open@ =~= before.update(k as int, !before[k as int]));
        }
    }
}

// ------------------------------------------------------------------------- laws

/// Escape leaves every queue under its old name.
pub proof fn a_dropped_rename_changes_no_queue(s: AppModel)
    ensures
        s.tree_rename_drop().queues() == s.queues(),
        s.tree_rename_drop().items() == s.items(),
{
    reveal(AppModel::tree_rename_drop);
}

/// The tree still shows the queue that was renamed while it was selected.
pub proof fn a_rename_keeps_the_selection(s: AppModel, name: Seq<char>)
    requires
        s.tree.renaming == Some(name),
        s.tree.sel == TreeSelModel::Queue(name),
        s.may_rename(name, trimmed(s.tree.draft)),
    ensures
        s.tree_rename_commit().tree.sel == TreeSelModel::Queue(trimmed(s.tree.draft)),
{
    reveal(AppModel::tree_rename_commit);
    reveal(AppModel::rename_queue);
}

} // verus!
