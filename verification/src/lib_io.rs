use vstd::prelude::*;
use vstd::string::StringSliceAdditionalSpecFns;

verus! {

/// The standard input of a user program.
pub struct Stdin;

/// The standard output of a user program.
pub struct Stdout;

/// The standard error of a user program.
pub struct Stderr;

/// The descriptor of the standard input.
pub const STDIN_FD: u8 = 0;
/// The descriptor of the standard output.
pub const STDOUT_FD: u8 = 1;
/// The descriptor of the standard error.
pub const STDERR_FD: u8 = 2;

/// A write system call to make: these bytes to that descriptor.
pub struct WriteRequest<'a> {
    pub fd: u8,
    pub bytes: &'a [u8],
}

impl Stdin {
    fn new() -> Self {
        Stdin
    }

    /// One step of reading a line. `read` is what the one-byte read system
    /// call returned and `byte` the byte it read: no answer (`None`) ends the
    /// line, zero bytes changes nothing, and a byte is applied with
    /// `edit_line`. Returns `true` when the line is complete.
    pub fn read_line_step(&self, line: &mut String, read: Option<usize>, byte: u8) -> (done: bool)
        ensures
            read is None ==> done && final(line)@ == old(line)@,
            read == Some(0usize) ==> !done && final(line)@ == old(line)@,
            read matches Some(n) && n > 0 ==> {
                &&& done == crate::input::is_line_end(byte)
                &&& done ==> final(line)@ == old(line)@
                &&& !done ==> final(line)@ == crate::input::edit(old(line)@, byte)
                &&& 32 <= byte <= 126 ==> final(line)@ == old(line)@.push(byte as char)
            },
    {
        match read {
            None => true,
            Some(n) => {
                if n > 0 {
                    crate::input::edit_line(line, byte)
                } else {
                    false
                }
            },
        }
    }
}

impl Stdout {
    fn new() -> Self {
        Stdout
    }

    /// The write system call that prints `s` on the standard output.
    pub fn write<'a>(&self, s: &'a str) -> (req: WriteRequest<'a>)
        ensures
            req.fd == STDOUT_FD,
            req.bytes@ == s.spec_bytes(),
    {
        WriteRequest { fd: STDOUT_FD, bytes: s.as_bytes() }
    }
}

impl Stderr {
    fn new() -> Self {
        Stderr
    }

    /// The write system call that prints `s` on the standard error.
    pub fn write<'a>(&self, s: &'a str) -> (req: WriteRequest<'a>)
        ensures
            req.fd == STDERR_FD,
            req.bytes@ == s.spec_bytes(),
    {
        WriteRequest { fd: STDERR_FD, bytes: s.as_bytes() }
    }
}

/// The line that `Stdin::read_line` builds from `line` when each one-byte
/// read delivers the next key of `keys`: what `read_line_step` does, key by
/// key, until a line end or the last key.
pub open spec fn stdin_line(line: Seq<char>, keys: Seq<u8>) -> Seq<char>
    decreases keys.len(),
{
    if keys.len() == 0 || crate::input::is_line_end(keys[0]) {
        line
    } else {
        stdin_line(crate::input::edit(line, keys[0]), keys.drop_first())
    }
}

proof fn lemma_stdin_line_from(keys: Seq<u8>, t: int, i: int)
    requires
        crate::input::first_line_end(keys, t),
        0 <= i <= t,
    ensures
        stdin_line(crate::input::typed_line(keys.take(i)), keys.skip(i)) == crate::input::typed_line(keys.take(t)),
    decreases t - i,
{
    if i < t {
        assert(!crate::input::is_line_end(keys[i]));
        assert(keys.skip(i)[0] == keys[i]);
        assert(keys.skip(i).drop_first() =~= keys.skip(i + 1));
        assert(keys.take(i + 1).drop_last() =~= keys.take(i));
        assert(keys.take(i + 1).last() == keys[i]);
        lemma_stdin_line_from(keys, t, i + 1);
    } else {
        assert(keys.skip(i)[0] == keys[t]);
    }
}

/// The user's line editor agrees with the kernel's: for keys that hold a
/// line end, reading a line on the standard input (one key per read) gives
/// the line that `get_line` returns for the same keys in the input buffer,
/// the line that the keys before the first line end type.
pub proof fn lemma_line_editors_agree(keys: Seq<u8>, t: int)
    requires
        crate::input::first_line_end(keys, t),
    ensures
        stdin_line(Seq::empty(), keys) == crate::input::typed_line(keys.take(t)),
{
    assert(keys.take(0) =~= Seq::<u8>::empty());
    assert(keys.skip(0) =~= keys);
    lemma_stdin_line_from(keys, t, 0);
}

/// The standard input.
pub fn stdin() -> Stdin {
    Stdin::new()
}

/// The standard output.
pub fn stdout() -> Stdout {
    Stdout::new()
}

/// The standard error.
pub fn stderr() -> Stderr {
    Stderr::new()
}

} // verus!
