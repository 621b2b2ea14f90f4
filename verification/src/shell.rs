use vstd::prelude::*;

verus! {

/// An ASCII white-space byte: tab, line feed, vertical tab, form feed,
/// carriage return or space.
pub open spec fn is_space(b: u8) -> bool {
    b == 32 || (9 <= b <= 13)
}

/// The first index from `i` on that is not white space (or the length).
pub open spec fn skip_space(s: Seq<u8>, i: int) -> int
    decreases s.len() - i,
{
    if 0 <= i < s.len() && is_space(s[i]) {
        skip_space(s, i + 1)
    } else {
        i
    }
}

/// The first index from `i` on that is white space (or the length).
pub open spec fn skip_word(s: Seq<u8>, i: int) -> int
    decreases s.len() - i,
{
    if 0 <= i < s.len() && !is_space(s[i]) {
        skip_word(s, i + 1)
    } else {
        i
    }
}

/// The first word of `s` (empty when `s` is only white space).
pub open spec fn first_word(s: Seq<u8>) -> Seq<u8> {
    let a = skip_space(s, 0);
    s.subrange(a, skip_word(s, a))
}

/// The second word of `s` (empty when there is none).
pub open spec fn second_word(s: Seq<u8>) -> Seq<u8> {
    let b = skip_word(s, skip_space(s, 0));
    let c = skip_space(s, b);
    s.subrange(c, skip_word(s, c))
}

proof fn lemma_skip_space_bounds(s: Seq<u8>, i: int)
    requires
        0 <= i <= s.len(),
    ensures
        i <= skip_space(s, i) <= s.len(),
        skip_space(s, i) < s.len() ==> !is_space(s[skip_space(s, i)]),
    decreases s.len() - i,
{
    if i < s.len() && is_space(s[i]) {
        lemma_skip_space_bounds(s, i + 1);
    }
}

proof fn lemma_skip_word_bounds(s: Seq<u8>, i: int)
    requires
        0 <= i <= s.len(),
    ensures
        i <= skip_word(s, i) <= s.len(),
    decreases s.len() - i,
{
    if i < s.len() && !is_space(s[i]) {
        lemma_skip_word_bounds(s, i + 1);
    }
}

proof fn lemma_shift(pre: Seq<u8>, s: Seq<u8>, i: int)
    requires
        0 <= i <= s.len(),
    ensures
        skip_space(pre + s, pre.len() + i) == pre.len() + skip_space(s, i),
        skip_word(pre + s, pre.len() + i) == pre.len() + skip_word(s, i),
    decreases s.len() - i,
{
    if i < s.len() {
        assert((pre + s)[pre.len() + i] == s[i]);
        lemma_shift(pre, s, i + 1);
    }
}

proof fn lemma_skip_leading(pre: Seq<u8>, s: Seq<u8>, i: int)
    requires
        0 <= i <= pre.len(),
        forall|j: int| 0 <= j < pre.len() ==> is_space(#[trigger] pre[j]),
    ensures
        skip_space(pre + s, i) == pre.len() + skip_space(s, 0),
    decreases pre.len() - i,
{
    if i < pre.len() {
        assert((pre + s)[i] == pre[i]);
        lemma_skip_leading(pre, s, i + 1);
    } else {
        lemma_shift(pre, s, 0);
    }
}

/// Leading white space does not change what a line asks for: its first
/// and second words stay the same.
pub proof fn lemma_leading_space_ignored(pre: Seq<u8>, s: Seq<u8>)
    requires
        forall|j: int| 0 <= j < pre.len() ==> is_space(#[trigger] pre[j]),
    ensures
        first_word(pre + s) == first_word(s),
        second_word(pre + s) == second_word(s),
{
    let t = pre + s;
    let n = pre.len() as int;
    lemma_skip_leading(pre, s, 0);
    lemma_skip_space_bounds(s, 0);
    let a = skip_space(s, 0);
    lemma_shift(pre, s, a);
    lemma_skip_word_bounds(s, a);
    let b = skip_word(s, a);
    assert(t.subrange(n + a, n + b) =~= s.subrange(a, b));
    lemma_shift(pre, s, b);
    lemma_skip_space_bounds(s, b);
    let c = skip_space(s, b);
    lemma_shift(pre, s, c);
    lemma_skip_word_bounds(s, c);
    let d = skip_word(s, c);
    assert(t.subrange(n + c, n + d) =~= s.subrange(c, d));
}

proof fn lemma_trailing(s: Seq<u8>, post: Seq<u8>, i: int)
    requires
        0 <= i <= s.len(),
        forall|j: int| 0 <= j < post.len() ==> is_space(#[trigger] post[j]),
    ensures
        skip_word(s + post, i) == skip_word(s, i),
        skip_space(s, i) < s.len() ==> skip_space(s + post, i) == skip_space(s, i),
        skip_space(s, i) == s.len() ==> skip_space(s + post, i) == s.len() + post.len(),
    decreases s.len() + post.len() - i,
{
    let t = s + post;
    if i < s.len() {
        assert(t[i] == s[i]);
        lemma_trailing(s, post, i + 1);
    } else {
        lemma_trailing_space(s, post, i);
        if post.len() > 0 {
            assert(t[i] == post[0]);
        }
    }
}

proof fn lemma_trailing_space(s: Seq<u8>, post: Seq<u8>, i: int)
    requires
        s.len() <= i <= s.len() + post.len(),
        forall|j: int| 0 <= j < post.len() ==> is_space(#[trigger] post[j]),
    ensures
        skip_space(s + post, i) == s.len() + post.len(),
    decreases s.len() + post.len() - i,
{
    if i < s.len() + post.len() {
        assert((s + post)[i] == post[i - s.len()]);
        lemma_trailing_space(s, post, i + 1);
    }
}

/// Trailing white space does not change what a line asks for: its first
/// and second words stay the same.
pub proof fn lemma_trailing_space_ignored(s: Seq<u8>, post: Seq<u8>)
    requires
        forall|j: int| 0 <= j < post.len() ==> is_space(#[trigger] post[j]),
    ensures
        first_word(s + post) == first_word(s),
        second_word(s + post) == second_word(s),
{
    let t = s + post;
    lemma_skip_space_bounds(s, 0);
    let a = skip_space(s, 0);
    lemma_trailing(s, post, 0);
    lemma_skip_word_bounds(s, a);
    let b = skip_word(s, a);
    lemma_trailing(s, post, a);
    if a < s.len() {
        assert(t.subrange(a, b) =~= s.subrange(a, b));
    } else {
        lemma_trailing_space(s, post, s.len() as int);
        assert(skip_word(t, t.len() as int) == t.len());
        assert(t.subrange(t.len() as int, t.len() as int) =~= s.subrange(a, b));
    }
    lemma_skip_space_bounds(s, b);
    let c = skip_space(s, b);
    lemma_trailing(s, post, b);
    lemma_skip_word_bounds(s, c);
    let d = skip_word(s, c);
    lemma_trailing(s, post, c);
    if a < s.len() {
        if c < s.len() {
            assert(t.subrange(c, d) =~= s.subrange(c, d));
        } else {
            lemma_trailing_space(s, post, s.len() as int);
            assert(skip_word(t, t.len() as int) == t.len());
            assert(t.subrange(t.len() as int, t.len() as int) =~= s.subrange(c, d));
        }
    } else {
        lemma_trailing_space(s, post, s.len() as int);
        assert(skip_word(t, t.len() as int) == t.len());
        assert(skip_space(t, t.len() as int) == t.len());
        assert(t.subrange(t.len() as int, t.len() as int) =~= s.subrange(c, d));
    }
}

/// The bytes of the command words.
pub open spec fn kw_help() -> Seq<u8> { seq![104u8, 101, 108, 112] }
pub open spec fn kw_list() -> Seq<u8> { seq![108u8, 105, 115, 116] }
pub open spec fn kw_ls() -> Seq<u8> { seq![108u8, 115] }
pub open spec fn kw_ps() -> Seq<u8> { seq![112u8, 115] }
pub open spec fn kw_whoami() -> Seq<u8> { seq![119u8, 104, 111, 97, 109, 105] }
pub open spec fn kw_run() -> Seq<u8> { seq![114u8, 117, 110] }
pub open spec fn kw_clear() -> Seq<u8> { seq![99u8, 108, 101, 97, 114] }
pub open spec fn kw_exit() -> Seq<u8> { seq![101u8, 120, 105, 116] }
pub open spec fn kw_quit() -> Seq<u8> { seq![113u8, 117, 105, 116] }

/// What a line typed at the shell asks for.
#[derive(Debug)]
pub enum ShellCommand {
    /// Nothing but white space: prompt again.
    Empty,
    /// `help`: show the help text.
    Help,
    /// `list` or `ls`: list the applications.
    ListApps,
    /// `ps`: list the processes.
    ListProcesses,
    /// `whoami`: show the shell's pid.
    WhoAmI,
    /// `run` without a program name: show how to use it.
    RunUsage,
    /// `run <name>`: run the program and wait for it.
    Run(Vec<u8>),
    /// `clear`: clear the screen.
    Clear,
    /// `exit` or `quit`: leave the shell.
    Exit,
    /// Any other first word: report it as unknown.
    Unknown(Vec<u8>),
}

/// The first index from `i` on that is not white space.
fn skip_space_at(s: &[u8], i: usize) -> (j: usize)
    requires
        i <= s@.len(),
    ensures
        j == skip_space(s@, i as int),
{
    let mut j = i;
    while j < s.len() && (s[j] == 32 || (9 <= s[j] && s[j] <= 13))
        invariant
            i <= j <= s@.len(),
            skip_space(s@, j as int) == skip_space(s@, i as int),
        decreases s@.len() - j,
    {
        j = j + 1;
    }
    j
}

/// The first index from `i` on that is white space.
fn skip_word_at(s: &[u8], i: usize) -> (j: usize)
    requires
        i <= s@.len(),
    ensures
        j == skip_word(s@, i as int),
{
    let mut j = i;
    while j < s.len() && !(s[j] == 32 || (9 <= s[j] && s[j] <= 13))
        invariant
            i <= j <= s@.len(),
            skip_word(s@, j as int) == skip_word(s@, i as int),
        decreases s@.len() - j,
    {
        j = j + 1;
    }
    j
}

/// Whether `s[a..b]` is the word `k`.
fn word_is(s: &[u8], a: usize, b: usize, k: &[u8]) -> (r: bool)
    requires
        a <= b <= s@.len(),
    ensures
        r == (s@.subrange(a as int, b as int) == k@),
{
    if b - a != k.len() {
        return false;
    }
    let mut i: usize = 0;
    while i < k.len()
        invariant
            a <= b <= s@.len(),
            b - a == k@.len(),
            i <= k@.len(),
            forall|j: int| 0 <= j < i ==> s@[a + j] == k@[j],
        decreases k@.len() - i,
    {
        if s[a + i] != k[i] {
            assert(s@.subrange(a as int, b as int)[i as int] != k@[i as int]);
            return false;
        }
        i = i + 1;
    }
    assert(s@.subrange(a as int, b as int) =~= k@);
    true
}

/// Copies `s[a..b]`.
fn copy_range(s: &[u8], a: usize, b: usize) -> (v: Vec<u8>)
    requires
        a <= b <= s@.len(),
    ensures
        v@ == s@.subrange(a as int, b as int),
{
    let mut v: Vec<u8> = Vec::new();
    let mut i = a;
    while i < b
        invariant
            a <= i <= b <= s@.len(),
            v@ == s@.subrange(a as int, i as int),
        decreases b - i,
    {
        v.push(s[i]);
        i = i + 1;
        assert(v@ =~= s@.subrange(a as int, i as int));
    }
    v
}

/// Parses a line typed at the shell (ASCII, as the line reader delivers)
/// by its first word and, for `run`, its second.
pub fn parse_command(input: &[u8]) -> (cmd: ShellCommand)
    requires
        forall|i: int| 0 <= i < input@.len() ==> input@[i] < 128,
    ensures
        ({
            let w = first_word(input@);
            let name = second_word(input@);
            &&& w.len() == 0 ==> cmd is Empty
            &&& w == kw_help() ==> cmd is Help
            &&& (w == kw_list() || w == kw_ls()) ==> cmd is ListApps
            &&& w == kw_ps() ==> cmd is ListProcesses
            &&& w == kw_whoami() ==> cmd is WhoAmI
            &&& w == kw_run() && name.len() == 0 ==> cmd is RunUsage
            &&& w == kw_run() && name.len() > 0 ==> (cmd matches ShellCommand::Run(n) && n@ == name)
            &&& w == kw_clear() ==> cmd is Clear
            &&& (w == kw_exit() || w == kw_quit()) ==> cmd is Exit
            &&& w.len() > 0 && w != kw_help() && w != kw_list() && w != kw_ls() && w != kw_ps()
                && w != kw_whoami() && w != kw_run() && w != kw_clear() && w != kw_exit() && w != kw_quit()
                ==> (cmd matches ShellCommand::Unknown(c) && c@ == w)
        }),
{
    let a = skip_space_at(input, 0);
    proof {
        lemma_skip_space_bounds(input@, 0);
        lemma_skip_word_bounds(input@, a as int);
    }
    let b = skip_word_at(input, a);
    if a == b {
        assert(first_word(input@) =~= Seq::<u8>::empty());
        assert(kw_help().len() == 4 && kw_list().len() == 4 && kw_ls().len() == 2 && kw_ps().len() == 2);
        assert(kw_whoami().len() == 6 && kw_run().len() == 3 && kw_clear().len() == 5);
        assert(kw_exit().len() == 4 && kw_quit().len() == 4);
        return ShellCommand::Empty;
    }
    let help: [u8; 4] = [104, 101, 108, 112];
    let list: [u8; 4] = [108, 105, 115, 116];
    let ls: [u8; 2] = [108, 115];
    let ps: [u8; 2] = [112, 115];
    let whoami: [u8; 6] = [119, 104, 111, 97, 109, 105];
    let run: [u8; 3] = [114, 117, 110];
    let clear: [u8; 5] = [99, 108, 101, 97, 114];
    let exit: [u8; 4] = [101, 120, 105, 116];
    let quit: [u8; 4] = [113, 117, 105, 116];
    assert(help@ =~= kw_help());
    assert(list@ =~= kw_list());
    assert(ls@ =~= kw_ls());
    assert(ps@ =~= kw_ps());
    assert(whoami@ =~= kw_whoami());
    assert(run@ =~= kw_run());
    assert(clear@ =~= kw_clear());
    assert(exit@ =~= kw_exit());
    assert(quit@ =~= kw_quit());
    if word_is(input, a, b, &help) {
        ShellCommand::Help
    } else if word_is(input, a, b, &list) || word_is(input, a, b, &ls) {
        ShellCommand::ListApps
    } else if word_is(input, a, b, &ps) {
        ShellCommand::ListProcesses
    } else if word_is(input, a, b, &whoami) {
        ShellCommand::WhoAmI
    } else if word_is(input, a, b, &run) {
        proof {
            lemma_skip_space_bounds(input@, b as int);
        }
        let c = skip_space_at(input, b);
        proof {
            lemma_skip_word_bounds(input@, c as int);
        }
        let d = skip_word_at(input, c);
        if c == d {
            ShellCommand::RunUsage
        } else {
            ShellCommand::Run(copy_range(input, c, d))
        }
    } else if word_is(input, a, b, &clear) {
        ShellCommand::Clear
    } else if word_is(input, a, b, &exit) || word_is(input, a, b, &quit) {
        ShellCommand::Exit
    } else {
        ShellCommand::Unknown(copy_range(input, a, b))
    }
}

/// Whether a line typed at the kernel's prompt is `exit` (white space
/// around it aside), which ends the prompt loop.
pub fn is_exit_line(input: &[u8]) -> (r: bool)
    requires
        forall|i: int| 0 <= i < input@.len() ==> input@[i] < 128,
    ensures
        r == (first_word(input@) == kw_exit() && second_word(input@).len() == 0),
{
    let a = skip_space_at(input, 0);
    proof {
        lemma_skip_space_bounds(input@, 0);
        lemma_skip_word_bounds(input@, a as int);
    }
    let b = skip_word_at(input, a);
    let exit: [u8; 4] = [101, 120, 105, 116];
    assert(exit@ =~= kw_exit());
    if !word_is(input, a, b, &exit) {
        return false;
    }
    proof {
        lemma_skip_space_bounds(input@, b as int);
    }
    let c = skip_space_at(input, b);
    proof {
        lemma_skip_word_bounds(input@, c as int);
    }
    let d = skip_word_at(input, c);
    c == d
}

/// What running a program came to.
#[derive(PartialEq, Eq, Structural, Debug, Clone, Copy)]
pub enum RunOutcome {
    /// The spawn returned pid 0: no such program.
    SpawnFailed,
    /// Waiting answered `usize::MAX` (seen as -1): the program still runs.
    StillRunning,
    /// The program finished with this exit code.
    Finished(isize),
}

/// The outcome of running a program that was spawned as `pid` and whose
/// wait answered `exit_code`.
pub fn run_outcome(pid: u16, exit_code: isize) -> (r: RunOutcome)
    ensures
        pid == 0 ==> r == RunOutcome::SpawnFailed,
        pid != 0 && exit_code == -1 ==> r == RunOutcome::StillRunning,
        pid != 0 && exit_code != -1 ==> r == RunOutcome::Finished(exit_code),
{
    if pid == 0 {
        RunOutcome::SpawnFailed
    } else if exit_code == -1 {
        RunOutcome::StillRunning
    } else {
        RunOutcome::Finished(exit_code)
    }
}

} // verus!
