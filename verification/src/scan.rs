//! Scanning a finished file for viruses: how the scanner is called, how its
//! console output is broken into lines, and what its exit code means.
use crate::ext_info::{from_utf8_lossy, opt_text, utf8_lossy};
use crate::model::DlId;
use crate::text::{
    cat, chars_of, contains, ends, ends_with, first_text, has, is_white, is_whitespace, matches_at,
    occurs_at, replace, replaced, signed_decimal, signed_number, strip_back, sub_text, trim_end, views,
    white,
};
use crate::twin::Twin;
use vstd::prelude::*;

verus! {

/// How a scan ended.
#[derive(Debug)]
pub enum Outcome {
    Clean,
    /// The name of the signature where the scanner named one, empty otherwise.
    Infected(String),
    /// The scanner could not be run, or exited with an error status.
    Failed(String),
}

/// The model of [`Outcome`].
#[verifier::ext_equal]
pub enum OutcomeModel {
    Clean,
    Infected(Seq<char>),
    Failed(Seq<char>),
}

impl View for Outcome {
    type V = OutcomeModel;

    open spec fn view(&self) -> OutcomeModel {
        match *self {
            Outcome::Clean => OutcomeModel::Clean,
            Outcome::Infected(a) => OutcomeModel::Infected(a@),
            Outcome::Failed(a) => OutcomeModel::Failed(a@),
        }
    }
}

impl DeepView for Outcome {
    type V = OutcomeModel;

    open spec fn deep_view(&self) -> OutcomeModel {
        self@
    }
}

impl Twin for Outcome {
    fn twin(&self) -> (r: Self) {
        match self {
            Outcome::Clean => Outcome::Clean,
            Outcome::Infected(a) => Outcome::Infected(a.clone()),
            Outcome::Failed(a) => Outcome::Failed(a.clone()),
        }
    }
}

/// What the scanner reports while it runs.
#[derive(Debug)]
pub enum ScanEvent {
    /// One console line, word for word. `redraw` says that it ended in a bare
    /// carriage return: a terminal would have drawn it over the previous one.
    Line { id: DlId, text: String, redraw: bool },
    Done(DlId, Outcome),
}

/// Console lines kept of one scan.
pub const MAX_LINES: usize = 2000;

// --------------------------------------------------------------- arguments

/// Where the splitting of a command line stands.
#[verifier::ext_equal]
pub struct ArgScan {
    pub out: Seq<Seq<char>>,
    pub cur: Seq<char>,
    pub quoted: bool,
    /// An argument has begun, even if it is still empty.
    pub any: bool,
}

impl ArgScan {
    pub open spec fn start() -> ArgScan {
        ArgScan { out: seq![], cur: seq![], quoted: false, any: false }
    }

    /// One character on: a double quote opens or closes a quotation, white
    /// space outside of one ends an argument, anything else belongs to it.
    pub open spec fn step(self, c: char) -> ArgScan {
        if c == '"' {
            ArgScan { quoted: !self.quoted, any: true, ..self }
        } else if is_white(c) && !self.quoted {
            if self.any {
                ArgScan { out: self.out.push(self.cur), cur: seq![], any: false, ..self }
            } else {
                self
            }
        } else {
            ArgScan { cur: self.cur.push(c), any: true, ..self }
        }
    }

    pub open spec fn run(self, s: Seq<char>) -> ArgScan
        decreases s.len(),
    {
        if s.len() == 0 {
            self
        } else {
            self.run(s.drop_last()).step(s.last())
        }
    }

    pub open spec fn finish(self) -> Seq<Seq<char>> {
        if self.any {
            self.out.push(self.cur)
        } else {
            self.out
        }
    }
}

/// The arguments of a command line.
pub open spec fn args_of(s: Seq<char>) -> Seq<Seq<char>> {
    ArgScan::start().run(s).finish()
}

/// Split the "Command line parameters" box into arguments, honouring double
/// quotes so that a switch carrying a path with spaces survives.
pub fn split_args(args: &str) -> (r: Vec<String>)
    ensures
        views(r@) == args_of(args@),
{
    let c = chars_of(args);
    let mut out: Vec<String> = Vec::new();
    let mut cur = String::new();
    let mut quoted = false;
    let mut any = false;
    let mut i: usize = 0;
    assert(args@.take(0) =~= seq![]);
    assert(views(out@) =~= seq![]);
    while i < c.len()
        invariant
            i <= c@.len(),
            c@ == args@,
            ArgScan::start().run(args@.take(i as int)) == (ArgScan {
                out: views(out@),
                cur: cur@,
                quoted,
                any,
            }),
        decreases c.len() - i,
    {
        let ch = c[i];
        let ghost before = out@;
        proof {
            assert(args@.take(i + 1).drop_last() =~= args@.take(i as int));
            assert(args@.take(i + 1).last() == ch);
        }
        if ch == '"' {
            quoted = !quoted;
            any = true;
        } else if is_whitespace(ch) && !quoted {
            if any {
                out.push(cur);
                assert(views(out@) =~= views(before).push(cur@));
                cur = String::new();
                any = false;
            }
        } else {
            cur.push(ch);
            any = true;
        }
        i += 1;
    }
    assert(args@.take(i as int) =~= args@);
    if any {
        let ghost before = out@;
        out.push(cur);
        assert(views(out@) =~= views(before).push(cur@));
    }
    out
}

/// The arguments with the placeholder replaced, or with the path behind them
/// where no argument holds it.
pub open spec fn scan_args(args: Seq<Seq<char>>, path: Seq<char>) -> Seq<Seq<char>> {
    let put = args.map_values(|a: Seq<char>| replaced(a, "%1"@, path));
    if exists|i: int| 0 <= i < args.len() && contains(#[trigger] args[i], "%1"@) {
        put
    } else {
        put.push(path)
    }
}

/// The full argument list for one scan. `%1` is replaced by the file path
/// wherever it appears; without it the path comes last.
pub fn argv(args: &str, path: &str) -> (r: Vec<String>)
    ensures
        views(r@) == scan_args(args_of(args@), path@),
{
    let parts = split_args(args);
    let ghost all = views(parts@);
    let ghost f = |a: Seq<char>| replaced(a, "%1"@, path@);
    let mut out: Vec<String> = Vec::new();
    let mut substituted = false;
    let mut i: usize = 0;
    assert(views(out@) =~= all.take(0).map_values(f));
    while i < parts.len()
        invariant
            i <= parts@.len(),
            all == views(parts@),
            f == (|a: Seq<char>| replaced(a, "%1"@, path@)),
            views(out@) == all.take(i as int).map_values(f),
            substituted == (exists|k: int| 0 <= k < i && contains(#[trigger] all[k], "%1"@)),
        decreases parts.len() - i,
    {
        let ghost before = out@;
        assert(all[i as int] == parts@[i as int]@);
        if has(&parts[i], "%1") {
            substituted = true;
        }
        out.push(replace(&parts[i], "%1", path));
        i += 1;
        proof {
            let put = replaced(parts@[i - 1]@, "%1"@, path@);
            assert(f(all[i - 1]) == put);
            assert(views(out@) =~= views(before).push(put));
            assert(all.take(i as int).map_values(f) =~= all.take(i - 1).map_values(f).push(put));
        }
    }
    assert(all.take(i as int) =~= all);
    if !substituted {
        let ghost before = out@;
        out.push(path.to_owned());
        assert(views(out@) =~= views(before).push(path@));
    }
    out
}

// ------------------------------------------------------------------ verdicts

/// What stands behind the last `": "` of a text; the whole of it without one.
pub open spec fn behind_colon(s: Seq<char>) -> Seq<char> {
    let i = last_text(s, ": "@, s.len() as int);
    if i >= 0 {
        s.skip(i + 2)
    } else {
        s
    }
}

/// The place of the last `t` in `s` at or before `i`; -1 where there is none.
pub open spec fn last_text(s: Seq<char>, t: Seq<char>, i: int) -> int
    decreases i + 1,
{
    if i < 0 {
        -1
    } else if occurs_at(s, t, i) {
        i
    } else {
        last_text(s, t, i - 1)
    }
}

/// The name of the signature in a hit line.
pub open spec fn hit(line: Seq<char>) -> Option<Seq<char>> {
    let l = strip_back(line, white());
    if ends(l, "FOUND"@) {
        let sig = behind_colon(strip_back(l.take(l.len() - "FOUND"@.len()), white()));
        if sig.len() > 0 {
            Some(sig)
        } else {
            None
        }
    } else {
        None
    }
}

/// The name of the signature out of a hit line:
/// `/path/f.zip: Eicar-Test-Signature FOUND`.
pub fn signature(line: &str) -> (r: Option<String>)
    ensures
        opt_text(r) == hit(line@),
{
    let l = trim_end(line);
    if !ends_with(&l, "FOUND") {
        return None;
    }
    let c = chars_of(&l);
    let mark = chars_of("FOUND");
    let cut = sub_text(&c, 0, c.len() - mark.len());
    assert(cut@ =~= l@.take(l@.len() - "FOUND"@.len()));
    let head = trim_end(&cut);
    let h = chars_of(&head);
    let colon = chars_of(": ");
    proof {
        reveal_strlit(": ");
    }
    let mut k: usize = h.len();
    while k > 0 && !matches_at(&h, &colon, k)
        invariant
            k <= h@.len(),
            last_text(h@, colon@, h@.len() as int) == last_text(h@, colon@, k as int),
        decreases k,
    {
        k -= 1;
    }
    let sig = if matches_at(&h, &colon, k) {
        let r = sub_text(&h, k + 2, h.len());
        assert(r@ =~= head@.skip(k + 2));
        r
    } else {
        assert(last_text(h@, colon@, k - 1) == -1);
        head
    };
    if sig.as_str().is_empty() {
        None
    } else {
        Some(sig)
    }
}

/// How a scan ended, by the exit code of the scanner and by the signature that
/// was read on the way: 0 is clean, 1 is infected, anything else an error.
pub open spec fn verdict(code: Option<i32>, found: Option<Seq<char>>) -> OutcomeModel {
    match code {
        Some(0) => OutcomeModel::Clean,
        Some(1) => OutcomeModel::Infected(
            match found {
                Some(s) => s,
                None => seq![],
            },
        ),
        Some(c) => OutcomeModel::Failed("exit code "@ + signed_decimal(c as int)),
        None => OutcomeModel::Failed("terminated"@),
    }
}

pub fn outcome_of(code: Option<i32>, found: Option<String>) -> (r: Outcome)
    ensures
        r@ == verdict(code, opt_text(found)),
{
    match code {
        Some(c) => if c == 0 {
            Outcome::Clean
        } else if c == 1 {
            Outcome::Infected(
                match found {
                    Some(s) => s,
                    None => String::new(),
                },
            )
        } else {
            Outcome::Failed(cat("exit code ", &signed_number(c as i64)))
        },
        None => Outcome::Failed("terminated".to_owned()),
    }
}

// ------------------------------------------------------------- console lines

/// Breaks a scanner's output into lines. A progress bar redrawn with bare
/// carriage returns holds no line feed at all, so a carriage return ends a
/// line too, and marks it as drawn over.
#[derive(Debug)]
pub struct LineSplitter {
    pub pending: Vec<u8>,
    /// The last byte was a carriage return.
    pub cr: bool,
    pub found: Option<String>,
    /// Lines handed on so far, counted up to [`MAX_LINES`].
    pub sent: usize,
}

/// The model of [`LineSplitter`], with the lines it has handed on.
#[verifier::ext_equal]
pub struct Lines {
    pub pending: Seq<u8>,
    pub cr: bool,
    pub found: Option<Seq<char>>,
    pub sent: int,
    pub out: Seq<(Seq<char>, bool)>,
}

impl Lines {
    pub open spec fn start() -> Lines {
        Lines { pending: seq![], cr: false, found: None, sent: 0, out: seq![] }
    }

    /// The pending bytes as a line, with trailing white space dropped.
    pub open spec fn text(self) -> Seq<char> {
        strip_back(utf8_lossy(self.pending), white())
    }

    /// The pending bytes handed on as a line. A hit line names the signature;
    /// lines past the cap are dropped, but still read for hits.
    pub open spec fn emit(self, redraw: bool) -> Lines {
        let text = self.text();
        Lines {
            pending: seq![],
            cr: self.cr,
            found: if ends(text, "FOUND"@) && hit(text) is Some {
                hit(text)
            } else {
                self.found
            },
            sent: if self.sent < MAX_LINES {
                self.sent + 1
            } else {
                self.sent
            },
            out: if self.sent < MAX_LINES {
                self.out.push((text, redraw))
            } else {
                self.out
            },
        }
    }

    /// One byte on: a line feed ends a line, a carriage return and a line feed
    /// end one together, and a carriage return alone ends one that is drawn over.
    pub open spec fn step(self, b: u8) -> Lines {
        if self.cr && b == 10 {
            Lines { cr: false, ..self }.emit(false)
        } else {
            let s = if self.cr {
                Lines { cr: false, ..self }.emit(true)
            } else {
                self
            };
            if b == 13 {
                Lines { cr: true, ..s }
            } else if b == 10 {
                s.emit(false)
            } else {
                Lines { pending: s.pending.push(b), ..s }
            }
        }
    }

    pub open spec fn run(self, bytes: Seq<u8>) -> Lines
        decreases bytes.len(),
    {
        if bytes.len() == 0 {
            self
        } else {
            self.run(bytes.drop_last()).step(bytes.last())
        }
    }

    /// The end of the output: what is pending is a last line.
    pub open spec fn finish(self) -> Lines {
        if self.cr || self.pending.len() > 0 {
            self.emit(self.cr)
        } else {
            self
        }
    }
}

pub open spec fn line_views(v: Seq<(String, bool)>) -> Seq<(Seq<char>, bool)> {
    v.map_values(|l: (String, bool)| (l.0@, l.1))
}

impl LineSplitter {
    /// The state together with lines handed on.
    pub open spec fn with(self, out: Seq<(Seq<char>, bool)>) -> Lines {
        Lines {
            pending: self.pending@,
            cr: self.cr,
            found: opt_text(self.found),
            sent: self.sent as int,
            out,
        }
    }

    pub fn new() -> (r: LineSplitter)
        ensures
            r.with(seq![]) == Lines::start(),
    {
        LineSplitter { pending: Vec::new(), cr: false, found: None, sent: 0 }
    }

    fn emit(&mut self, redraw: bool, out: &mut Vec<(String, bool)>)
        ensures
            final(self).with(line_views(final(out)@)) == old(self).with(line_views(old(out)@)).emit(
                redraw,
            ),
    {
        let ghost start = self.with(line_views(out@));
        let text = trim_end(&from_utf8_lossy(&self.pending));
        self.pending = Vec::new();
        if ends_with(&text, "FOUND") {
            if let Some(sig) = signature(&text) {
                self.found = Some(sig);
            }
        }
        if self.sent < MAX_LINES {
            self.sent = self.sent + 1;
            let ghost before = out@;
            out.push((text, redraw));
            assert(line_views(out@) =~= line_views(before).push((text@, redraw)));
        }
        assert(self.with(line_views(out@)) =~= start.emit(redraw));
    }

    fn step(&mut self, b: u8, out: &mut Vec<(String, bool)>)
        ensures
            final(self).with(line_views(final(out)@)) == old(self).with(line_views(old(out)@)).step(
                b,
            ),
    {
        if self.cr {
            self.cr = false;
            if b == 10 {
                self.emit(false, out);
                return;
            }
            self.emit(true, out);
        }
        if b == 13 {
            self.cr = true;
        } else if b == 10 {
            self.emit(false, out);
        } else {
            self.pending.push(b);
        }
    }

    /// Takes in one chunk of output and returns the lines it completes.
    pub fn feed(&mut self, bytes: &[u8]) -> (r: Vec<(String, bool)>)
        ensures
            final(self).with(line_views(r@)) == old(self).with(seq![]).run(bytes@),
    {
        let mut out: Vec<(String, bool)> = Vec::new();
        let mut i: usize = 0;
        assert(line_views(out@) =~= seq![]);
        assert(bytes@.take(0) =~= seq![]);
        while i < bytes.len()
            invariant
                i <= bytes@.len(),
                self.with(line_views(out@)) == old(self).with(seq![]).run(bytes@.take(i as int)),
            decreases bytes.len() - i,
        {
            proof {
                assert(bytes@.take(i + 1).drop_last() =~= bytes@.take(i as int));
                assert(bytes@.take(i + 1).last() == bytes@[i as int]);
            }
            self.step(bytes[i], &mut out);
            i += 1;
        }
        assert(bytes@.take(i as int) =~= bytes@);
        out
    }

    /// The output has ended: returns the last line, if one is pending.
    pub fn finish(&mut self) -> (r: Vec<(String, bool)>)
        ensures
            final(self).with(line_views(r@)) == old(self).with(seq![]).finish(),
    {
        let mut out: Vec<(String, bool)> = Vec::new();
        assert(line_views(out@) =~= seq![]);
        if self.cr || self.pending.len() > 0 {
            let redraw = self.cr;
            self.emit(redraw, &mut out);
        }
        out
    }
}

/// One of the two pipes a scanner prints to.
#[derive(Clone, Copy, PartialEq, Eq, Structural, Debug)]
pub enum Pipe {
    Output,
    Errors,
}

/// What a scanner prints, on both of its pipes. The cap on lines holds for the
/// scan as a whole.
#[derive(Debug)]
pub struct Console {
    pub out: LineSplitter,
    pub err: LineSplitter,
    /// Lines handed on so far, from either pipe.
    pub sent: usize,
}

impl Console {
    pub open spec fn pipe(self, p: Pipe) -> LineSplitter {
        match p {
            Pipe::Output => self.out,
            Pipe::Errors => self.err,
        }
    }

    /// A pipe before it is read further, with the lines of both pipes counted.
    pub open spec fn before(self, p: Pipe) -> Lines {
        Lines { sent: self.sent as int, ..self.pipe(p).with(seq![]) }
    }

    /// Whether the pipe other than `p` is as it was.
    pub open spec fn same_but(self, was: Console, p: Pipe) -> bool {
        match p {
            Pipe::Output => self.err == was.err,
            Pipe::Errors => self.out == was.out,
        }
    }

    /// The signature that was named: what the error pipe says comes first.
    pub open spec fn named(self) -> Option<Seq<char>> {
        if self.err.found is Some {
            opt_text(self.err.found)
        } else {
            opt_text(self.out.found)
        }
    }

    pub fn new() -> (r: Console)
        ensures
            r.sent == 0,
            r.before(Pipe::Output) == Lines::start(),
            r.before(Pipe::Errors) == Lines::start(),
    {
        Console { out: LineSplitter::new(), err: LineSplitter::new(), sent: 0 }
    }

    /// Takes in one chunk of a pipe and returns the lines it completes.
    pub fn feed(&mut self, p: Pipe, bytes: &[u8]) -> (r: Vec<(String, bool)>)
        ensures
            final(self).pipe(p).with(line_views(r@)) == old(self).before(p).run(bytes@),
            final(self).same_but(*old(self), p),
            final(self).sent == old(self).sent + r@.len(),
            final(self).sent <= MAX_LINES || r@.len() == 0,
    {
        proof {
            lines_are_capped(self.before(p), bytes@);
        }
        let r = match p {
            Pipe::Output => {
                self.out.sent = self.sent;
                let r = self.out.feed(bytes);
                self.sent = self.out.sent;
                r
            },
            Pipe::Errors => {
                self.err.sent = self.sent;
                let r = self.err.feed(bytes);
                self.sent = self.err.sent;
                r
            },
        };
        assert(line_views(r@).len() == r@.len());
        r
    }

    /// A pipe has ended: returns its last line, if one is pending.
    pub fn finish(&mut self, p: Pipe) -> (r: Vec<(String, bool)>)
        ensures
            final(self).pipe(p).with(line_views(r@)) == old(self).before(p).finish(),
            final(self).same_but(*old(self), p),
            final(self).sent == old(self).sent + r@.len(),
            final(self).sent <= MAX_LINES || r@.len() == 0,
    {
        let r = match p {
            Pipe::Output => {
                self.out.sent = self.sent;
                let r = self.out.finish();
                self.sent = self.out.sent;
                r
            },
            Pipe::Errors => {
                self.err.sent = self.sent;
                let r = self.err.finish();
                self.sent = self.err.sent;
                r
            },
        };
        assert(line_views(r@).len() == r@.len());
        r
    }

    /// The name of the signature that the scanner has reported.
    pub fn found(&self) -> (r: Option<String>)
        ensures
            opt_text(r) == self.named(),
    {
        match &self.err.found {
            Some(s) => Some(s.clone()),
            None => match &self.out.found {
                Some(s) => Some(s.clone()),
                None => None,
            },
        }
    }
}

// ---------------------------------------------------------------------- laws

/// Where the output is cut into chunks makes no difference to its lines.
pub proof fn chunks_do_not_matter(s: Lines, a: Seq<u8>, b: Seq<u8>)
    ensures
        s.run(a + b) == s.run(a).run(b),
    decreases b.len(),
{
    if b.len() == 0 {
        assert(a + b =~= a);
    } else {
        chunks_do_not_matter(s, a, b.drop_last());
        assert((a + b).drop_last() =~= a + b.drop_last());
        assert((a + b).last() == b.last());
    }
}

/// Every line that is handed on is counted, and no more than the cap ever are.
pub proof fn lines_are_capped(s: Lines, bytes: Seq<u8>)
    requires
        0 <= s.sent,
    ensures
        s.run(bytes).sent - s.sent == s.run(bytes).out.len() - s.out.len(),
        s.run(bytes).finish().sent - s.sent == s.run(bytes).finish().out.len() - s.out.len(),
        s.sent <= s.run(bytes).sent,
        s.sent <= MAX_LINES ==> s.run(bytes).finish().sent <= MAX_LINES,
        s.sent < s.run(bytes).sent ==> s.run(bytes).sent <= MAX_LINES,
    decreases bytes.len(),
{
    if bytes.len() > 0 {
        lines_are_capped(s, bytes.drop_last());
    }
}

/// The path of the file is always among the arguments of a scan: in place of
/// the placeholder, or as the last argument.
pub proof fn the_path_comes_last_without_a_placeholder(args: Seq<Seq<char>>, path: Seq<char>)
    requires
        forall|i: int| 0 <= i < args.len() ==> !contains(#[trigger] args[i], "%1"@),
    ensures
        scan_args(args, path) == args.push(path),
{
    assert forall|i: int| 0 <= i < args.len() implies replaced(
        #[trigger] args[i],
        "%1"@,
        path,
    ) == args[i] by {
        crate::text::lemma_first_text(args[i], "%1"@, 0);
        let k = first_text(args[i], "%1"@, 0);
        if k <= args[i].len() {
            assert(occurs_at(args[i], "%1"@, k));
            assert(contains(args[i], "%1"@));
        }
    }
    assert(args.map_values(|a: Seq<char>| replaced(a, "%1"@, path)) =~= args);
}

} // verus!
