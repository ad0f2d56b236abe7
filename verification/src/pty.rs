//! The pseudo-terminal that the shell runs in: choosing the shell, its window
//! size, and reading from and writing to a descriptor that does not block.
use nix::fcntl::OFlag;
use vstd::prelude::*;
use vstd::slice::*;

verus! {

/// The shell that runs where nothing else is known.
pub open spec fn fallback_shell() -> Seq<u8> {
    seq![0x2Fu8, 0x62, 0x69, 0x6E, 0x2F, 0x73, 0x68]
}

/// The user's shell: what the environment names, unless that is empty; else what
/// the passwd database names; else `/bin/sh`.
pub open spec fn shell_for(env: Option<Vec<u8>>, passwd: Option<Vec<u8>>) -> Seq<u8> {
    match env {
        Some(path) if path@.len() > 0 => path@,
        _ => match passwd {
            Some(path) => path@,
            None => fallback_shell(),
        },
    }
}

/// Chooses the user's shell.
pub fn choose_shell(env: Option<Vec<u8>>, passwd: Option<Vec<u8>>) -> (shell: Vec<u8>)
    ensures
        shell@ == shell_for(env, passwd),
{
    if let Some(path) = env {
        if path.len() > 0 {
            return path;
        }
    }
    match passwd {
        Some(path) => path,
        None => {
            let shell: Vec<u8> = vec![0x2F, 0x62, 0x69, 0x6E, 0x2F, 0x73, 0x68];
            assert(shell@ =~= fallback_shell());
            shell
        },
    }
}

/// The byte that separates the components of a path.
pub const SEPARATOR: u8 = 0x2F;

/// The byte of a full stop.
pub const DOT: u8 = 0x2E;

/// A path without what does not count at its end: separators, and components that
/// are a single full stop behind a separator.
pub open spec fn settled(path: Seq<u8>) -> Seq<u8>
    decreases path.len(),
{
    if path.len() > 0 && path.last() == SEPARATOR {
        settled(path.drop_last())
    } else if path.len() > 1 && path.last() == DOT && path[path.len() - 2] == SEPARATOR {
        settled(path.drop_last())
    } else {
        path
    }
}

/// The bytes behind the last separator.
pub open spec fn tail(path: Seq<u8>) -> Seq<u8>
    decreases path.len(),
{
    if path.len() == 0 || path.last() == SEPARATOR {
        Seq::empty()
    } else {
        tail(path.drop_last()).push(path.last())
    }
}

/// The last component of a path, where that is a name: the root, `.` and `..` are
/// none.
pub open spec fn last_component(path: Seq<u8>) -> Option<Seq<u8>> {
    let name = tail(settled(path));
    if name.len() == 0 || name == seq![DOT] || name == seq![DOT, DOT] {
        None
    } else {
        Some(name)
    }
}

/// What a program is told to be called: the last component of its path (such as
/// `zsh` for `/bin/zsh`), or the whole path where that has none.
pub open spec fn arg0(path: Seq<u8>) -> Seq<u8> {
    match last_component(path) {
        Some(name) => name,
        None => path,
    }
}

/// The bytes of `path` between two places.
fn part(path: &[u8], from: usize, to: usize) -> (bytes: Vec<u8>)
    requires
        from <= to <= path@.len(),
    ensures
        bytes@ == path@.subrange(from as int, to as int),
{
    let mut bytes: Vec<u8> = Vec::new();
    bytes.extend_from_slice(slice_subrange(path, from, to));
    assert(bytes@ =~= path@.subrange(from as int, to as int));
    bytes
}

/// What a shell is told to be called.
pub fn shell_arg0(shell: &[u8]) -> (name: Vec<u8>)
    ensures
        name@ == arg0(shell@),
{
    let mut end: usize = shell.len();
    assert(shell@.take(end as int) =~= shell@);
    while end > 0 && (shell[end - 1] == SEPARATOR || (end > 1 && shell[end - 1] == DOT && shell[end
        - 2] == SEPARATOR))
        invariant
            end <= shell@.len(),
            settled(shell@.take(end as int)) == settled(shell@),
        decreases end,
    {
        assert(shell@.take(end as int).drop_last() =~= shell@.take(end - 1));
        end = end - 1;
    }
    let ghost kept = shell@.take(end as int);
    assert(settled(kept) == kept);
    let mut start: usize = end;
    assert(kept.take(start as int) =~= kept);
    assert(kept.skip(start as int) =~= Seq::<u8>::empty());
    assert(tail(kept) =~= tail(kept.take(start as int)) + kept.skip(start as int));
    while start > 0 && shell[start - 1] != SEPARATOR
        invariant
            start <= end <= shell@.len(),
            kept == shell@.take(end as int),
            tail(kept) == tail(kept.take(start as int)) + kept.skip(start as int),
        decreases start,
    {
        proof {
            assert(kept.take(start as int).drop_last() =~= kept.take(start - 1));
            assert(tail(kept) =~= tail(kept.take(start - 1)) + kept.skip(start - 1));
        }
        start = start - 1;
    }
    assert(tail(kept) =~= shell@.subrange(start as int, end as int));
    let name = part(shell, start, end);
    let dots: bool = (name.len() == 1 && name[0] == DOT) || (name.len() == 2 && name[0] == DOT
        && name[1] == DOT);
    proof {
        assert(name@.len() == 1 && name@[0] == DOT <==> name@ =~= seq![DOT]);
        assert(name@.len() == 2 && name@[0] == DOT && name@[1] == DOT <==> name@ =~= seq![DOT, DOT]);
    }
    if name.len() == 0 || dots {
        let all = part(shell, 0, shell.len());
        assert(all@ =~= shell@);
        return all;
    }
    name
}

/// The kind of terminal that programs in the shell are told they run in.
pub const TERM: &'static str = "xterm-256color";

/// How the shell is started.
#[derive(Debug)]
pub struct ShellCommand {
    /// The path of the program.
    pub program: Vec<u8>,
    /// What it is told to be called.
    pub arg0: Vec<u8>,
    /// The value of `TERM` in its environment.
    pub term: &'static str,
}

/// Decides how the user's shell is started.
pub fn shell_command(env: Option<Vec<u8>>, passwd: Option<Vec<u8>>) -> (c: ShellCommand)
    ensures
        c.program@ == shell_for(env, passwd),
        c.arg0@ == arg0(c.program@),
        c.term@ == "xterm-256color"@,
{
    let program = choose_shell(env, passwd);
    let arg0 = shell_arg0(program.as_slice());
    ShellCommand { program, arg0, term: TERM }
}

/// What a shell is called has no separator in it and stands at the end of its
/// path, except where the path names no file and is taken whole.
pub proof fn law_shells_are_called_by_their_file(path: Seq<u8>)
    ensures
        last_component(path) matches Some(name) ==> !name.contains(SEPARATOR) && name.len() > 0
            && name.is_suffix_of(settled(path)),
        path.len() > 0 ==> arg0(path).len() > 0,
{
    lemma_tail(settled(path));
}

proof fn lemma_tail(path: Seq<u8>)
    ensures
        !tail(path).contains(SEPARATOR),
        tail(path).is_suffix_of(path),
        tail(path).len() <= path.len(),
    decreases path.len(),
{
    if path.len() > 0 && path.last() != SEPARATOR {
        let init = path.drop_last();
        lemma_tail(init);
        let t = tail(path);
        assert forall|i: int| 0 <= i < t.len() implies t[i] != SEPARATOR by {
            if i < tail(init).len() {
                assert(t[i] == tail(init)[i]);
                assert(tail(init).contains(tail(init)[i]));
            }
        }
        assert(t =~= path.subrange(path.len() - t.len(), path.len() as int));
    } else {
        assert(tail(path) =~= path.subrange(path.len() as int, path.len() as int));
    }
}

/// A window size as the kernel keeps it.
#[derive(Clone, Copy, Debug, PartialEq, Eq, Structural)]
pub struct WindowSize {
    pub rows: u16,
    pub cols: u16,
    pub xpixel: u16,
    pub ypixel: u16,
}

/// The window size of a grid; the size in pixels is left open.
pub fn window_size(cols: u16, rows: u16) -> (w: WindowSize)
    ensures
        w == (WindowSize { rows, cols, xpixel: 0, ypixel: 0 }),
{
    WindowSize { rows, cols, xpixel: 0, ypixel: 0 }
}

/// `OFlag::union` of nix on raw flag words: every bit that is set in either,
/// those without a name included.
#[verifier::external_body]
fn flags_union(raw: i32, flag: i32) -> (r: i32)
    ensures
        r == raw | flag,
{
    OFlag::from_bits_retain(raw).union(OFlag::from_bits_retain(flag)).bits()
}

/// The status flags of a descriptor with the flag `nonblock` added; every flag
/// that is set already stays.
pub fn nonblocking_flags(raw: i32, nonblock: i32) -> (flags: i32)
    ensures
        flags == raw | nonblock,
{
    flags_union(raw, nonblock)
}

/// Adding a flag keeps every bit, sets the flag, and does nothing the second
/// time.
pub proof fn law_flags_are_added(raw: i32, nonblock: i32)
    ensures
        (raw | nonblock) & nonblock == nonblock,
        (raw | nonblock) & raw == raw,
        (raw | nonblock) | nonblock == raw | nonblock,
{
    assert((raw | nonblock) & nonblock == nonblock && (raw | nonblock) & raw == raw && (raw
        | nonblock) | nonblock == raw | nonblock) by (bit_vector);
}

/// Result of draining the descriptor.
#[derive(Clone, Copy, Debug, PartialEq, Eq, Structural)]
pub enum PtyReadResult {
    /// Data was drained, or nothing is available right now.
    Drained,
    /// The child closed its end.
    Eof,
    /// A real read error occurred.
    Error,
}

/// What one read gave.
#[derive(Clone, Copy, Debug, PartialEq, Eq, Structural)]
pub enum ReadOutcome {
    /// This many bytes.
    Bytes(usize),
    /// Nothing is available (EAGAIN).
    WouldBlock,
    /// A signal came in between (EINTR).
    Interrupted,
    /// An input/output error (EIO), by which a closed end often shows.
    Io,
    /// Any other error.
    Other,
}

/// What to do after a read.
#[derive(Clone, Copy, Debug, PartialEq, Eq, Structural)]
pub enum ReadStep {
    /// Feed the first bytes of the buffer to the terminal and read on.
    Feed(usize),
    /// Read again.
    Retry,
    /// Stop.
    Done(PtyReadResult),
}

/// What to do after a read.
pub open spec fn step_after(outcome: ReadOutcome) -> ReadStep {
    match outcome {
        ReadOutcome::Bytes(n) => if n == 0 {
            ReadStep::Done(PtyReadResult::Eof)
        } else {
            ReadStep::Feed(n)
        },
        ReadOutcome::WouldBlock => ReadStep::Done(PtyReadResult::Drained),
        ReadOutcome::Interrupted => ReadStep::Retry,
        ReadOutcome::Io => ReadStep::Done(PtyReadResult::Eof),
        ReadOutcome::Other => ReadStep::Done(PtyReadResult::Error),
    }
}

/// Decides what to do after a read.
pub fn pty_read(outcome: ReadOutcome) -> (step: ReadStep)
    ensures
        step == step_after(outcome),
{
    match outcome {
        ReadOutcome::Bytes(n) => if n == 0 {
            ReadStep::Done(PtyReadResult::Eof)
        } else {
            ReadStep::Feed(n)
        },
        ReadOutcome::WouldBlock => ReadStep::Done(PtyReadResult::Drained),
        ReadOutcome::Interrupted => ReadStep::Retry,
        ReadOutcome::Io => ReadStep::Done(PtyReadResult::Eof),
        ReadOutcome::Other => ReadStep::Done(PtyReadResult::Error),
    }
}

/// What one write gave.
#[derive(Clone, Copy, Debug, PartialEq, Eq, Structural)]
pub enum WriteOutcome {
    /// This many bytes were taken.
    Bytes(usize),
    /// A signal came in between (EINTR).
    Interrupted,
    /// The buffer is full (EAGAIN), or any other error.
    Failed,
}

/// A best-effort write: partial writes are continued, interrupted ones repeated,
/// and what cannot be written is dropped.
pub struct PtyWrite<'a> {
    data: &'a [u8],
    sent: usize,
    dropped: bool,
}

/// The state of a [`PtyWrite`].
pub struct WriteView {
    pub data: Seq<u8>,
    pub sent: nat,
    pub dropped: bool,
}

impl WriteView {
    /// Not more was sent than there is.
    pub open spec fn wf(self) -> bool {
        self.sent <= self.data.len()
    }

    /// What has been sent.
    pub open spec fn delivered(self) -> Seq<u8> {
        self.data.take(self.sent as int)
    }

    /// What is to be written next.
    pub open spec fn rest(self) -> Seq<u8> {
        self.data.skip(self.sent as int)
    }

    /// Nothing more is to be written.
    pub open spec fn finished(self) -> bool {
        self.dropped || self.sent == self.data.len()
    }

    /// The state after one write of the rest.
    pub open spec fn after(self, outcome: WriteOutcome) -> WriteView {
        match outcome {
            WriteOutcome::Bytes(n) => WriteView { sent: self.sent + n as nat, ..self },
            WriteOutcome::Interrupted => self,
            WriteOutcome::Failed => WriteView { dropped: true, ..self },
        }
    }
}

impl<'a> View for PtyWrite<'a> {
    type V = WriteView;

    closed spec fn view(&self) -> WriteView {
        WriteView { data: self.data@, sent: self.sent as nat, dropped: self.dropped }
    }
}

impl<'a> PtyWrite<'a> {
    /// Begins to write `data`.
    pub fn new(data: &'a [u8]) -> (w: PtyWrite<'a>)
        ensures
            w@ == (WriteView { data: data@, sent: 0, dropped: false }),
            w@.wf(),
    {
        PtyWrite { data, sent: 0, dropped: false }
    }

    /// What to write next, if anything.
    pub fn remaining(&self) -> (r: Option<&'a [u8]>)
        requires
            self@.wf(),
        ensures
            match r {
                None => self@.finished(),
                Some(bytes) => !self@.finished() && bytes@ == self@.rest(),
            },
    {
        if self.dropped || self.sent == self.data.len() {
            return None;
        }
        Some(slice_subrange(self.data, self.sent, self.data.len()))
    }

    /// Takes what one write of the remaining bytes gave.
    pub fn advance(&mut self, outcome: WriteOutcome)
        requires
            old(self)@.wf(),
            outcome matches WriteOutcome::Bytes(n) ==> n <= old(self)@.rest().len(),
        ensures
            final(self)@ == old(self)@.after(outcome),
            final(self)@.wf(),
    {
        match outcome {
            WriteOutcome::Bytes(n) => {
                assert(self.data@.len() == self.data.len());
                self.sent = self.sent + n;
            },
            WriteOutcome::Interrupted => {},
            WriteOutcome::Failed => {
                self.dropped = true;
            },
        }
    }
}

/// What has been sent is always the beginning of the data, in order; a write
/// adds to it exactly the bytes that were taken.
pub proof fn law_writes_deliver_a_prefix(w: WriteView, outcome: WriteOutcome)
    requires
        w.wf(),
        outcome matches WriteOutcome::Bytes(n) ==> n <= w.rest().len(),
    ensures
        w.delivered() + w.rest() == w.data,
        w.after(outcome).delivered() == w.delivered() + (match outcome {
            WriteOutcome::Bytes(n) => w.rest().take(n as int),
            _ => Seq::empty(),
        }),
        w.finished() && !w.dropped ==> w.delivered() == w.data,
{
    assert(w.delivered() + w.rest() =~= w.data);
    assert(w.after(outcome).delivered() =~= w.delivered() + (match outcome {
        WriteOutcome::Bytes(n) => w.rest().take(n as int),
        _ => Seq::empty(),
    }));
    assert(w.sent == w.data.len() ==> w.delivered() =~= w.data);
}

/// The shell is what the environment names, unless that is missing or empty, else
/// what the user's entry names, and else `/bin/sh`.
pub proof fn law_shells_are_chosen_in_order(
    env: Option<Vec<u8>>,
    passwd: Option<Vec<u8>>,
    shell: Vec<u8>,
)
    requires
        call_ensures(choose_shell, (env, passwd), shell),
    ensures
        env is Some && env->0@.len() > 0 ==> shell@ == env->0@,
        (env is None || env->0@.len() == 0) && passwd is Some ==> shell@ == passwd->0@,
        (env is None || env->0@.len() == 0) && passwd is None ==> shell@ == seq![
            0x2Fu8,
            0x62,
            0x69,
            0x6E,
            0x2F,
            0x73,
            0x68,
        ],
{
}

proof fn lemma_tail_behind_a_separator(dir: Seq<u8>, name: Seq<u8>)
    requires
        !name.contains(0x2F),
        dir.len() == 0 || dir.last() == 0x2F,
    ensures
        tail(dir + name) == name,
    decreases name.len(),
{
    let path = dir + name;
    if name.len() == 0 {
        assert(path =~= dir);
        assert(tail(path) =~= name);
    } else {
        let init = name.drop_last();
        assert forall|i: int| 0 <= i < init.len() implies init[i] != 0x2F by {
            assert(name.contains(name[i]));
        }
        lemma_tail_behind_a_separator(dir, init);
        assert(name.contains(name[name.len() - 1]));
        assert(path.drop_last() =~= dir + init);
        assert(path.last() == name.last());
        assert(tail(path) =~= name);
    }
}

/// A shell is called by the last part of its path, behind the last separator or
/// alone, where that is a name and neither a dot nor two. Separators behind it do
/// not count.
pub proof fn law_shells_are_called_by_their_last_part(
    dir: Seq<u8>,
    name: Seq<u8>,
    shell: &[u8],
    slashed: &[u8],
    r: Vec<u8>,
    s: Vec<u8>,
)
    requires
        dir.len() == 0 || dir.last() == 0x2F,
        name.len() > 0,
        !name.contains(0x2F),
        name != seq![0x2Eu8],
        name != seq![0x2Eu8, 0x2E],
        shell@ == dir + name,
        slashed@ == shell@.push(0x2F),
        call_ensures(shell_arg0, (shell,), r),
        call_ensures(shell_arg0, (slashed,), s),
    ensures
        r@ == name,
        s@ == name,
{
    let path = shell@;
    assert(path.last() == name.last());
    assert(name.contains(name[name.len() - 1]));
    if path.last() == 0x2E && path.len() > 1 && path[path.len() - 2] == 0x2F {
        if name.len() > 1 {
            assert(path[path.len() - 2] == name[name.len() - 2]);
            assert(name.contains(name[name.len() - 2]));
        } else {
            assert(name =~= seq![0x2Eu8]);
        }
    }
    assert(settled(path) == path);
    lemma_tail_behind_a_separator(dir, name);
    assert(slashed@.drop_last() =~= path);
    assert(settled(slashed@) == path);
}

/// The command starts the chosen shell under the name that it is called by, and
/// tells it the kind of terminal.
pub proof fn law_commands_start_the_chosen_shell(
    env: Option<Vec<u8>>,
    passwd: Option<Vec<u8>>,
    c: ShellCommand,
    shell: Vec<u8>,
    bytes: &[u8],
    name: Vec<u8>,
)
    requires
        call_ensures(shell_command, (env, passwd), c),
        call_ensures(choose_shell, (env, passwd), shell),
        bytes@ == shell@,
        call_ensures(shell_arg0, (bytes,), name),
    ensures
        c.program@ == shell@,
        c.arg0@ == name@,
        c.term@ == "xterm-256color"@,
{
}

/// Rows stay rows and columns columns, and no size in pixels is claimed.
pub proof fn law_window_sizes_keep_rows_and_columns(cols: u16, rows: u16, w: WindowSize)
    requires
        call_ensures(window_size, (cols, rows), w),
    ensures
        w.rows == rows && w.cols == cols && w.xpixel == 0 && w.ypixel == 0,
{
}

/// The flag is set afterwards, every other flag is as it was.
pub proof fn law_only_the_flag_is_added(raw: i32, nonblock: i32, flags: i32)
    requires
        call_ensures(nonblocking_flags, (raw, nonblock), flags),
    ensures
        flags & nonblock == nonblock,
        flags & !nonblock == raw & !nonblock,
{
    assert((raw | nonblock) & nonblock == nonblock && (raw | nonblock) & !nonblock == raw
        & !nonblock) by (bit_vector);
}

/// Bytes that were read are fed on, all of them; a read is repeated exactly where a
/// signal interrupted it; it is over with nothing left where it would block, with
/// the end where nothing came or the terminal is gone, and with an error otherwise.
pub proof fn law_reads_feed_what_they_got(outcome: ReadOutcome, step: ReadStep)
    requires
        call_ensures(pty_read, (outcome,), step),
    ensures
        step matches ReadStep::Feed(n) ==> n > 0 && outcome == ReadOutcome::Bytes(n),
        outcome matches ReadOutcome::Bytes(n) ==> (step is Feed <==> n > 0),
        step is Retry <==> outcome == ReadOutcome::Interrupted,
        step == ReadStep::Done(PtyReadResult::Drained) <==> outcome == ReadOutcome::WouldBlock,
        step == ReadStep::Done(PtyReadResult::Eof) <==> outcome == ReadOutcome::Io || outcome
            == ReadOutcome::Bytes(0),
        step == ReadStep::Done(PtyReadResult::Error) <==> outcome == ReadOutcome::Other,
{
}

/// What remains to be written begins as the whole data. A write takes off what was
/// taken; an interrupted one takes off nothing; after a failed one nothing is left
/// to do. There is nothing to do, either, once everything was taken.
pub proof fn law_writes_go_on_behind_what_was_taken<'a>(
    data: &'a [u8],
    begun: PtyWrite<'a>,
    first: Option<&'a [u8]>,
    write: &mut PtyWrite<'a>,
    before: Option<&'a [u8]>,
    outcome: WriteOutcome,
    after: Option<&'a [u8]>,
)
    requires
        call_ensures(PtyWrite::<'a>::new, (data,), begun),
        call_ensures(PtyWrite::<'a>::remaining, (&begun,), first),
        call_ensures(PtyWrite::<'a>::remaining, (&*old(write),), before),
        old(write)@.wf(),
        outcome matches WriteOutcome::Bytes(n) ==> n <= old(write)@.rest().len(),
        call_ensures(PtyWrite::<'a>::advance, (write, outcome), ()),
        call_ensures(PtyWrite::<'a>::remaining, (&*final(write),), after),
    ensures
        first is Some <==> data@.len() > 0,
        first matches Some(bytes) ==> bytes@ == data@,
        before is None ==> after is None,
        outcome == WriteOutcome::Failed ==> after is None,
        outcome == WriteOutcome::Interrupted && before is Some ==> after is Some && after->0@
            == before->0@,
        before is Some && outcome is Bytes ==> (outcome matches WriteOutcome::Bytes(n) && (
        after is Some <==> n < before->0@.len()) && (after is Some ==> after->0@
            == before->0@.skip(n as int))),
{
    if first is Some {
        assert(data@.skip(0) =~= data@);
    }
    if before is Some && outcome is Bytes {
        if let WriteOutcome::Bytes(n) = outcome {
            let rest = old(write)@.rest();
            assert(final(write)@.rest() =~= rest.skip(n as int));
        }
    }
    if outcome == WriteOutcome::Bytes(0) && before is None {
        assert(old(write)@.rest().len() == old(write)@.data.len() - old(write)@.sent);
    }
}

} // verus!
