use vstd::prelude::*;
use crossbeam_queue::ArrayQueue;
use crate::text::char_of;

verus! {

/// The outside bounded queue from crossbeam, opaque to proofs.
#[verifier::external_type_specification]
#[verifier::external_body]
#[verifier::reject_recursive_types(T)]
pub struct ExArrayQueue<T>(ArrayQueue<T>);

/// The bytes that a queue holds, oldest first.
pub uninterp spec fn queue_items(q: ArrayQueue<u8>) -> Seq<u8>;

/// The capacity that a queue was made with.
pub uninterp spec fn queue_capacity(q: ArrayQueue<u8>) -> nat;

/// `ArrayQueue::new` from crossbeam-queue. Its source asserts `cap > 0` and
/// builds an empty queue of `cap` slots; the contract claims an empty queue
/// of capacity `cap` (the bound on `cap` keeps clear of the "too large"
/// panic that its documentation mentions).
#[verifier::external_body]
fn queue_new(cap: usize) -> (q: ArrayQueue<u8>)
    requires
        0 < cap <= 4096,
    ensures
        queue_items(q) == Seq::<u8>::empty(),
        queue_capacity(q) == cap,
{
    ArrayQueue::new(cap)
}

/// `ArrayQueue::push` from crossbeam-queue, on a queue that no one else
/// touches. Its source returns the value back as an error when the head lags
/// one lap behind the tail (the queue holds `capacity` items) and otherwise
/// writes it behind the last item. The contract claims that, and that the
/// capacity stays.
#[verifier::external_body]
fn queue_push(q: &mut ArrayQueue<u8>, value: u8) -> (r: Result<(), u8>)
    ensures
        queue_capacity(*final(q)) == queue_capacity(*old(q)),
        queue_items(*old(q)).len() < queue_capacity(*old(q)) ==> r is Ok && queue_items(*final(q)) == queue_items(*old(q)).push(value),
        queue_items(*old(q)).len() >= queue_capacity(*old(q)) ==> (r matches Err(e) && e == value) && queue_items(*final(q)) == queue_items(*old(q)),
{
    q.push(value)
}

/// `ArrayQueue::pop` from crossbeam-queue, on a queue that no one else
/// touches. Its source returns `None` when head and tail meet and otherwise
/// reads the slot at the head and advances it. The contract claims that the
/// oldest item comes out and the others stay in order.
#[verifier::external_body]
fn queue_pop(q: &mut ArrayQueue<u8>) -> (r: Option<u8>)
    ensures
        queue_capacity(*final(q)) == queue_capacity(*old(q)),
        queue_items(*old(q)).len() == 0 ==> r is None && queue_items(*final(q)) == queue_items(*old(q)),
        queue_items(*old(q)).len() > 0 ==> r == Some(queue_items(*old(q))[0]) && queue_items(*final(q)) == queue_items(*old(q)).drop_first(),
{
    q.pop()
}

/// `ArrayQueue::len` from crossbeam-queue: the number of items held.
#[verifier::external_body]
fn queue_len(q: &ArrayQueue<u8>) -> (r: usize)
    ensures
        r == queue_items(*q).len(),
{
    q.len()
}

/// `ArrayQueue::is_empty` from crossbeam-queue: whether head and tail meet,
/// that is whether no item is held.
#[verifier::external_body]
fn queue_is_empty(q: &ArrayQueue<u8>) -> (r: bool)
    ensures
        r == (queue_items(*q).len() == 0),
{
    q.is_empty()
}

/// `ArrayQueue::is_full` from crossbeam-queue: whether the head lags one lap
/// behind the tail, that is whether `capacity` items are held.
#[verifier::external_body]
fn queue_is_full(q: &ArrayQueue<u8>) -> (r: bool)
    ensures
        r == (queue_items(*q).len() == queue_capacity(*q)),
{
    q.is_full()
}

/// How many keys the input buffer holds at most.
pub const INPUT_BUFFER_SIZE: usize = 128;

/// The keys typed on the keyboard or the serial line and not read yet.
pub struct InputBuffer {
    queue: ArrayQueue<u8>,
}

impl View for InputBuffer {
    type V = Seq<u8>;

    closed spec fn view(&self) -> Seq<u8> {
        queue_items(self.queue)
    }
}

/// A well-formed buffer never holds more than `INPUT_BUFFER_SIZE` keys.
pub proof fn lemma_buffer_bounded(buf: InputBuffer)
    requires
        buf.wf(),
    ensures
        buf@.len() <= INPUT_BUFFER_SIZE,
{
}

impl InputBuffer {
    /// The buffer holds at most `INPUT_BUFFER_SIZE` keys and was made with
    /// that capacity.
    pub closed spec fn wf(&self) -> bool {
        &&& queue_capacity(self.queue) == INPUT_BUFFER_SIZE
        &&& queue_items(self.queue).len() <= INPUT_BUFFER_SIZE
    }

    /// An empty buffer.
    pub fn new() -> (b: Self)
        ensures
            b.wf(),
            b@ == Seq::<u8>::empty(),
    {
        InputBuffer { queue: queue_new(INPUT_BUFFER_SIZE) }
    }
}

/// What the terminal shows when a key has been accepted.
#[derive(PartialEq, Eq, Structural, Debug, Clone, Copy)]
pub enum KeyEcho {
    /// The buffer was full: the key was dropped and nothing is shown.
    Dropped,
    /// A line feed is sent.
    Newline,
    /// The last character on screen is erased (back, space, back).
    Backspace,
    /// The key itself is sent.
    Char(u8),
    /// Nothing is shown.
    Silent,
}

/// A key that ends a line: line feed or carriage return.
pub open spec fn is_line_end(k: u8) -> bool {
    k == 10 || k == 13
}

/// A key that erases the last character: backspace or delete.
pub open spec fn is_erase(k: u8) -> bool {
    k == 8 || k == 0x7F
}

/// A printable ASCII key, space to tilde.
pub open spec fn is_printable(k: u8) -> bool {
    32 <= k <= 126
}

/// The echo of an accepted key.
pub open spec fn echo_of(k: u8) -> KeyEcho {
    if is_line_end(k) {
        KeyEcho::Newline
    } else if is_erase(k) {
        KeyEcho::Backspace
    } else if is_printable(k) {
        KeyEcho::Char(k)
    } else {
        KeyEcho::Silent
    }
}

/// The line after one key that does not end it: an erase removes the last
/// character if there is one, a printable key is appended, any other key is
/// ignored.
pub open spec fn edit(line: Seq<char>, k: u8) -> Seq<char> {
    if is_erase(k) {
        if line.len() > 0 {
            line.drop_last()
        } else {
            line
        }
    } else if is_printable(k) {
        line.push(crate::text::ascii_char(k))
    } else {
        line
    }
}

/// The line that a sequence of keys (none of which ends the line) types.
pub open spec fn typed_line(keys: Seq<u8>) -> Seq<char>
    decreases keys.len(),
{
    if keys.len() == 0 {
        Seq::empty()
    } else {
        edit(typed_line(keys.drop_last()), keys.last())
    }
}

/// `i` is the position of the first line end in `keys`.
pub open spec fn first_line_end(keys: Seq<u8>, i: int) -> bool {
    &&& 0 <= i < keys.len()
    &&& is_line_end(keys[i])
    &&& forall|j: int| 0 <= j < i ==> !is_line_end(#[trigger] keys[j])
}

/// Adds a key to the buffer and says what to echo: nothing when the buffer
/// is full (the key is dropped), otherwise the echo of the key.
pub fn push_key(buf: &mut InputBuffer, key: u8) -> (echo: KeyEcho)
    requires
        old(buf).wf(),
    ensures
        final(buf).wf(),
        old(buf)@.len() < INPUT_BUFFER_SIZE ==> echo == echo_of(key) && final(buf)@ == old(buf)@.push(key),
        old(buf)@.len() < INPUT_BUFFER_SIZE && 32 <= key <= 126 ==> echo == KeyEcho::Char(key),
        old(buf)@.len() == INPUT_BUFFER_SIZE ==> echo == KeyEcho::Dropped && final(buf)@ == old(buf)@,
{
    if queue_push(&mut buf.queue, key).is_err() {
        KeyEcho::Dropped
    } else {
        if key == 10 || key == 13 {
            KeyEcho::Newline
        } else if key == 8 || key == 0x7F {
            KeyEcho::Backspace
        } else if key >= 32 && key <= 126 {
            KeyEcho::Char(key)
        } else {
            KeyEcho::Silent
        }
    }
}

/// Takes the oldest key, if any.
pub fn try_pop_key(buf: &mut InputBuffer) -> (r: Option<u8>)
    requires
        old(buf).wf(),
    ensures
        final(buf).wf(),
        old(buf)@.len() == 0 ==> r is None && final(buf)@ == old(buf)@,
        old(buf)@.len() > 0 ==> r == Some(old(buf)@[0]) && final(buf)@ == old(buf)@.drop_first(),
{
    queue_pop(&mut buf.queue)
}

/// Takes the oldest key. The kernel waits here for the interrupt handler to
/// fill the buffer; within the library the key must already be there.
pub fn pop_key(buf: &mut InputBuffer) -> (k: u8)
    requires
        old(buf).wf(),
        old(buf)@.len() > 0,
    ensures
        final(buf).wf(),
        k == old(buf)@[0],
        final(buf)@ == old(buf)@.drop_first(),
{
    match try_pop_key(buf) {
        Some(k) => k,
        None => vstd::pervasive::unreached(),
    }
}

/// Applies one key to a line being typed. Returns `true` when the key ends
/// the line (the line is then left as it is); otherwise the line becomes
/// `edit(line, key)`.
pub fn edit_line(line: &mut String, key: u8) -> (done: bool)
    ensures
        done == is_line_end(key),
        done ==> final(line)@ == old(line)@,
        !done ==> final(line)@ == edit(old(line)@, key),
        32 <= key <= 126 ==> !done && final(line)@ == old(line)@.push(key as char),
{
    if key == 10 || key == 13 {
        true
    } else if key == 8 || key == 0x7F {
        if !line.as_str().is_empty() {
            line.pop();
        }
        false
    } else if key >= 32 && key <= 126 {
        line.push(char_of(key));
        false
    } else {
        false
    }
}

/// A printable key is echoed as itself, a line end as a line feed and an
/// erase key as a backspace.
pub proof fn lemma_echo_of_keys(k: u8)
    ensures
        32 <= k <= 126 ==> echo_of(k) == KeyEcho::Char(k),
        (k == 10 || k == 13) ==> echo_of(k) == KeyEcho::Newline,
        (k == 8 || k == 0x7F) ==> echo_of(k) == KeyEcho::Backspace,
{
}

/// A printable key types itself: the line gets the character whose code is
/// the key, whatever the line held.
pub proof fn lemma_printable_key_appends(line: Seq<char>, k: u8)
    requires
        32 <= k <= 126,
    ensures
        !is_line_end(k),
        edit(line, k) == line.push(k as char),
{
}

/// Keys that are all printable type exactly their own characters.
pub proof fn lemma_printable_keys_type_themselves(keys: Seq<u8>)
    requires
        forall|i: int| 0 <= i < keys.len() ==> 32 <= #[trigger] keys[i] <= 126,
    ensures
        typed_line(keys) == keys.map_values(|k: u8| k as char),
    decreases keys.len(),
{
    if keys.len() > 0 {
        lemma_printable_keys_type_themselves(keys.drop_last());
        assert(keys.map_values(|k: u8| k as char) =~= keys.drop_last().map_values(|k: u8| k as char).push(keys.last() as char));
    }
}

/// Reads a line from the buffer: takes keys up to and including the first
/// line end and returns what they typed. The kernel waits for the line end;
/// within the library it must already be in the buffer.
pub fn get_line(buf: &mut InputBuffer) -> (line: String)
    requires
        old(buf).wf(),
        exists|i: int| 0 <= i < old(buf)@.len() && is_line_end(#[trigger] old(buf)@[i]),
    ensures
        final(buf).wf(),
        exists|t: int|
            first_line_end(old(buf)@, t) && line@ == typed_line(old(buf)@.take(t)) && final(buf)@
                == old(buf)@.skip(t + 1),
{
    let ghost keys = buf@;
    let ghost end = choose|i: int| 0 <= i < keys.len() && is_line_end(#[trigger] keys[i]);
    let mut line = String::with_capacity(INPUT_BUFFER_SIZE);
    let ghost mut n: int = 0;
    loop
        invariant
            keys == old(buf)@,
            buf.wf(),
            0 <= n <= end,
            0 <= end < keys.len(),
            is_line_end(keys[end]),
            buf@ == keys.skip(n),
            forall|j: int| 0 <= j < n ==> !is_line_end(#[trigger] keys[j]),
            line@ == typed_line(keys.take(n)),
        decreases keys.len() - n,
    {
        assert(buf@[0] == keys[n]);
        let key = pop_key(buf);
        let done = edit_line(&mut line, key);
        if done {
            assert(first_line_end(keys, n));
            assert(buf@ =~= keys.skip(n + 1));
            assert(first_line_end(keys, n) && line@ == typed_line(keys.take(n)) && buf@ == keys.skip(n + 1));
            return line;
        }
        proof {
            assert(keys.take(n + 1).drop_last() =~= keys.take(n));
            assert(keys.take(n + 1).last() == key);
            assert(buf@ =~= keys.skip(n + 1));
            n = n + 1;
        }
    }
}

/// Drops every key in the buffer.
pub fn clear_buffer(buf: &mut InputBuffer)
    requires
        old(buf).wf(),
    ensures
        final(buf).wf(),
        final(buf)@ == Seq::<u8>::empty(),
{
    while try_pop_key(buf).is_some()
        invariant
            buf.wf(),
        decreases buf@.len(),
    {
    }
}

/// How many keys the buffer holds.
pub fn buffer_len(buf: &InputBuffer) -> (n: usize)
    ensures
        n == buf@.len(),
        buf.wf() ==> n <= INPUT_BUFFER_SIZE,
{
    queue_len(&buf.queue)
}

/// Whether the buffer holds no key.
pub fn is_buffer_empty(buf: &InputBuffer) -> (r: bool)
    ensures
        r == (buf@.len() == 0),
{
    queue_is_empty(&buf.queue)
}

/// Whether the buffer holds as many keys as it can.
pub fn is_buffer_full(buf: &InputBuffer) -> (r: bool)
    requires
        buf.wf(),
    ensures
        r == (buf@.len() == INPUT_BUFFER_SIZE),
{
    queue_is_full(&buf.queue)
}

/// A typed line holds only printable ASCII characters.
pub proof fn lemma_typed_line_printable(keys: Seq<u8>)
    ensures
        forall|i: int| 0 <= i < typed_line(keys).len() ==> 32 <= (#[trigger] typed_line(keys)[i]) as u32 <= 126,
    decreases keys.len(),
{
    if keys.len() > 0 {
        lemma_typed_line_printable(keys.drop_last());
        let prev = typed_line(keys.drop_last());
        let k = keys.last();
        assert forall|i: int| 0 <= i < typed_line(keys).len() implies 32 <= (#[trigger] typed_line(keys)[i]) as u32 <= 126 by {
            if is_erase(k) {
                if prev.len() > 0 {
                    assert(typed_line(keys)[i] == prev[i]);
                }
            } else if is_printable(k) {
                if i < prev.len() {
                    assert(typed_line(keys)[i] == prev[i]);
                }
            }
        }
    }
}

/// A typed line is never longer than the keys that typed it.
pub proof fn lemma_typed_line_len(keys: Seq<u8>)
    ensures
        typed_line(keys).len() <= keys.len(),
    decreases keys.len(),
{
    if keys.len() > 0 {
        lemma_typed_line_len(keys.drop_last());
    }
}

/// An erase right after a printable key takes it back: the line is as if
/// neither had been typed.
pub proof fn lemma_erase_undoes_key(keys: Seq<u8>, k: u8, erase: u8)
    requires
        is_printable(k),
        is_erase(erase),
    ensures
        typed_line(keys.push(k).push(erase)) == typed_line(keys),
{
    let s1 = keys.push(k);
    let s2 = s1.push(erase);
    assert(s2.drop_last() =~= s1);
    assert(s1.drop_last() =~= keys);
    assert(typed_line(s1) == edit(typed_line(keys), k));
    assert(typed_line(s2) == edit(typed_line(s1), erase));
    assert(typed_line(keys).push(crate::text::ascii_char(k)).drop_last() =~= typed_line(keys));
}

/// Keys leave the buffer in the order they entered it: after a key is
/// accepted into a buffer holding `held`, the keys that come out before it
/// are exactly `held`, and then the key itself.
pub proof fn lemma_fifo(held: Seq<u8>, key: u8)
    ensures
        held.push(key).take(held.len() as int) == held,
        held.push(key)[held.len() as int] == key,
{
    assert(held.push(key).take(held.len() as int) =~= held);
}

} // verus!
