use vstd::prelude::*;
use crossbeam_queue::ArrayQueue;
use pc_keyboard::layouts::Us104Key;
use pc_keyboard::{DecodedKey, HandleControl, KeyCode, KeyEvent, Keyboard, ScancodeSet1};

verus! {

#[verifier::external_type_specification]
#[verifier::external_body]
#[verifier::reject_recursive_types(T)]
pub struct ExArrayQueue<T>(ArrayQueue<T>);

#[verifier::external_type_specification]
#[verifier::external_body]
pub struct ExKeyEvent(KeyEvent);

#[verifier::external_type_specification]
#[verifier::external_body]
pub struct ExKeyCode(KeyCode);

/// The scancodes waiting in a queue, oldest first.
pub uninterp spec fn queued(q: ArrayQueue<u8>) -> Seq<u8>;

/// The number of scancodes a queue was made to hold.
pub uninterp spec fn queue_capacity(q: ArrayQueue<u8>) -> nat;

/// `ArrayQueue::new` of crossbeam-queue: an empty queue holding up to `cap` items. The
/// source panics on a zero capacity and on one whose next power of two above overflows.
#[verifier::external_body]
fn queue_new(cap: usize) -> (q: ArrayQueue<u8>)
    requires
        0 < cap <= 0x1000_0000,
    ensures
        queued(q) == Seq::<u8>::empty(),
        queue_capacity(q) == cap,
{
    ArrayQueue::new(cap)
}

/// `ArrayQueue::push` of crossbeam-queue: appends `value` at the tail unless the queue
/// holds `capacity` items already, in which case `value` comes back as the error.
#[verifier::external_body]
fn queue_push(q: &mut ArrayQueue<u8>, value: u8) -> (r: Result<(), u8>)
    requires
        queued(*old(q)).len() <= queue_capacity(*old(q)),
    ensures
        queue_capacity(*final(q)) == queue_capacity(*old(q)),
        queued(*old(q)).len() < queue_capacity(*old(q)) ==> r is Ok && queued(*final(q)) == queued(*old(q)).push(value),
        queued(*old(q)).len() >= queue_capacity(*old(q)) ==> r is Err && r->Err_0 == value && queued(*final(q)) == queued(*old(q)),
    no_unwind
{
    q.push(value)
}

/// `ArrayQueue::pop` of crossbeam-queue: removes and returns the item at the head, or
/// `None` when the queue is empty.
#[verifier::external_body]
fn queue_pop(q: &mut ArrayQueue<u8>) -> (r: Option<u8>)
    ensures
        queue_capacity(*final(q)) == queue_capacity(*old(q)),
        queued(*old(q)).len() == 0 ==> r is None && queued(*final(q)) == queued(*old(q)),
        queued(*old(q)).len() > 0 ==> r == Some(queued(*old(q))[0]) && queued(*final(q)) == queued(*old(q)).drop_first(),
    no_unwind
{
    q.pop()
}

/// How many scancodes wait at most between the interrupt handler and the input task.
pub const SCANCODE_QUEUE_CAPACITY: usize = 100;

/// The queue of scancodes the keyboard interrupt handler hands to the input task, in the
/// order the keyboard sent them.
pub struct ScancodeStream {
    queue: ArrayQueue<u8>,
}

impl ScancodeStream {
    #[verifier::type_invariant]
    spec fn inv(self) -> bool {
        &&& queue_capacity(self.queue) == SCANCODE_QUEUE_CAPACITY
        &&& queued(self.queue).len() <= SCANCODE_QUEUE_CAPACITY
    }

    /// The scancodes waiting, oldest first.
    pub closed spec fn pending(self) -> Seq<u8> {
        queued(self.queue)
    }

    /// An empty stream.
    pub fn new() -> (r: Self)
        ensures
            r.pending() == Seq::<u8>::empty(),
    {
        ScancodeStream { queue: queue_new(SCANCODE_QUEUE_CAPACITY) }
    }

    /// Queues a scancode from the interrupt handler. When the queue is full the scancode
    /// is dropped and `false` comes back.
    pub fn add_scancode(&mut self, scancode: u8) -> (r: bool)
        ensures
            r == (old(self).pending().len() < SCANCODE_QUEUE_CAPACITY),
            final(self).pending() == after_adds(old(self).pending(), seq![scancode]),
            r ==> final(self).pending() == old(self).pending().push(scancode),
            !r ==> final(self).pending() == old(self).pending(),
    {
        proof {
            use_type_invariant(&*self);
            assert(seq![scancode].drop_last() =~= Seq::<u8>::empty());
            assert(seq![scancode].last() == scancode);
            assert(after_adds(self.pending(), seq![scancode].drop_last()) == self.pending());
        }
        let pushed = queue_push(&mut self.queue, scancode);
        pushed.is_ok()
    }

    /// Takes the oldest waiting scancode, or `None` when none waits.
    pub fn next_scancode(&mut self) -> (r: Option<u8>)
        ensures
            old(self).pending().len() == 0 ==> r is None && final(self).pending() == old(self).pending(),
            old(self).pending().len() > 0 ==> r == Some(old(self).pending()[0])
                && final(self).pending() == old(self).pending().drop_first(),
            final(self).pending() == after_takes(old(self).pending(), 1).1,
            r matches Some(x) ==> after_takes(old(self).pending(), 1).0 == seq![x],
            r is None ==> after_takes(old(self).pending(), 1).0 == Seq::<u8>::empty(),
    {
        proof {
            use_type_invariant(&*self);
            assert(after_takes(self.pending(), 0) == (Seq::<u8>::empty(), self.pending()));
            if self.pending().len() > 0 {
                assert(Seq::<u8>::empty().push(self.pending()[0]) =~= seq![self.pending()[0]]);
            }
        }
        queue_pop(&mut self.queue)
    }
}

/// The pending scancodes after `add_scancode` was called with each of `codes` in turn,
/// starting from `pending`: a scancode is queued when fewer than the capacity wait, and
/// dropped otherwise.
pub open spec fn after_adds(pending: Seq<u8>, codes: Seq<u8>) -> Seq<u8>
    decreases codes.len(),
{
    if codes.len() == 0 {
        pending
    } else {
        let before = after_adds(pending, codes.drop_last());
        if before.len() < SCANCODE_QUEUE_CAPACITY {
            before.push(codes.last())
        } else {
            before
        }
    }
}

/// What `n` calls of `next_scancode` return, in order, and the scancodes still pending
/// afterwards, starting from pending scancodes `pending`.
pub open spec fn after_takes(pending: Seq<u8>, n: nat) -> (Seq<u8>, Seq<u8>)
    decreases n,
{
    if n == 0 {
        (Seq::empty(), pending)
    } else {
        let (out, rest) = after_takes(pending, (n - 1) as nat);
        if rest.len() > 0 {
            (out.push(rest[0]), rest.drop_first())
        } else {
            (out, rest)
        }
    }
}

proof fn lemma_adds_within_capacity(codes: Seq<u8>)
    requires
        codes.len() <= SCANCODE_QUEUE_CAPACITY,
    ensures
        after_adds(Seq::empty(), codes) == codes,
    decreases codes.len(),
{
    if codes.len() > 0 {
        lemma_adds_within_capacity(codes.drop_last());
        assert(codes.drop_last().push(codes.last()) =~= codes);
    }
}

proof fn lemma_takes_front(pending: Seq<u8>, n: nat)
    requires
        n <= pending.len(),
    ensures
        after_takes(pending, n) == (pending.take(n as int), pending.skip(n as int)),
    decreases n,
{
    if n > 0 {
        lemma_takes_front(pending, (n - 1) as nat);
        let rest = pending.skip(n - 1);
        assert(rest[0] == pending[n - 1]);
        assert(pending.take(n - 1).push(rest[0]) =~= pending.take(n as int));
        assert(rest.drop_first() =~= pending.skip(n as int));
    } else {
        assert(pending.take(0) =~= Seq::<u8>::empty());
        assert(pending.skip(0) =~= pending);
    }
}

/// Scancodes leave the stream in the order they arrived: after up to the capacity of
/// scancodes is added to an empty stream, as many calls of `next_scancode` return
/// exactly them, in order, and leave the stream empty.
pub proof fn lemma_scancodes_in_order(codes: Seq<u8>)
    requires
        codes.len() <= SCANCODE_QUEUE_CAPACITY,
    ensures
        after_takes(after_adds(Seq::empty(), codes), codes.len()) == (codes, Seq::<u8>::empty()),
{
    lemma_adds_within_capacity(codes);
    lemma_takes_front(codes, codes.len());
    assert(codes.take(codes.len() as int) =~= codes);
    assert(codes.skip(codes.len() as int) =~= Seq::<u8>::empty());
}

/// The pc-keyboard decoder the console uses: US 104-key layout, scancode set 1. Its
/// state (a partly received key sequence, the modifiers held) is opaque; what it does
/// is known only through the names `decoded_event`, `decoder_after_byte`, `decoded_key`
/// and `decoder_after_event`.
#[verifier::external_body]
pub struct KeyDecoder {
    keyboard: Keyboard<Us104Key, ScancodeSet1>,
}

/// What the decoder does with letters typed while Ctrl is held.
#[derive(Debug, Clone, Copy, PartialEq, Eq, Structural)]
pub enum CtrlHandling {
    /// Letters stay letters; the Ctrl keys come through as raw keys.
    Ignore,
    /// Ctrl+A through Ctrl+Z decode to the control characters U+0001 through U+001A.
    MapLettersToUnicode,
}

/// The decoder state `Keyboard::new` gives: the start state of the scancode decoder, no
/// modifier held, Caps Lock off, Num Lock on, with the given Ctrl handling.
pub uninterp spec fn fresh_decoder(ctrl: CtrlHandling) -> KeyDecoder;

/// `Keyboard::new` of pc-keyboard, for the US 104-key layout and scancode set 1: a
/// decoder in its start state, named `fresh_decoder(ctrl)`.
#[verifier::external_body]
fn keyboard_new(ctrl: CtrlHandling) -> (r: KeyDecoder)
    ensures
        r == fresh_decoder(ctrl),
{
    let handle_ctrl = match ctrl {
        CtrlHandling::Ignore => HandleControl::Ignore,
        CtrlHandling::MapLettersToUnicode => HandleControl::MapLettersToUnicode,
    };
    KeyDecoder { keyboard: Keyboard::new(Us104Key, ScancodeSet1, handle_ctrl) }
}

/// The key event (if any) that `Keyboard::add_byte` returns when the decoder in state
/// `decoder` is fed `byte`; a decoding error counts as no event.
pub uninterp spec fn decoded_event(decoder: KeyDecoder, byte: u8) -> Option<KeyEvent>;

/// The decoder state `Keyboard::add_byte` leaves after feeding `byte` to `decoder`.
pub uninterp spec fn decoder_after_byte(decoder: KeyDecoder, byte: u8) -> KeyDecoder;

/// The decoded key (if any) that `Keyboard::process_keyevent` returns for `event` in
/// decoder state `decoder`.
pub uninterp spec fn decoded_key(decoder: KeyDecoder, event: KeyEvent) -> Option<KeyInput>;

/// The decoder state `Keyboard::process_keyevent` leaves after handling `event`.
pub uninterp spec fn decoder_after_event(decoder: KeyDecoder, event: KeyEvent) -> KeyDecoder;

/// `Keyboard::add_byte` of pc-keyboard: feeds one scancode byte to the decoder, which
/// yields a key event once a whole key press or release has arrived. It is a
/// deterministic function of the decoder state and the byte: both the event and the new
/// state are named; a decoding error comes back as `None`.
#[verifier::external_body]
fn keyboard_add_byte(decoder: &mut KeyDecoder, byte: u8) -> (r: Option<KeyEvent>)
    ensures
        r == decoded_event(*old(decoder), byte),
        *final(decoder) == decoder_after_byte(*old(decoder), byte),
{
    match decoder.keyboard.add_byte(byte) {
        Ok(event) => event,
        Err(_) => None,
    }
}

/// `Keyboard::process_keyevent` of pc-keyboard: turns a key event into the character it
/// types under the current modifiers, or into its raw key code, or into nothing (a
/// release, or a modifier). It is a deterministic function of the decoder state and the
/// event: both the key and the new state are named.
#[verifier::external_body]
fn keyboard_process_event(decoder: &mut KeyDecoder, event: KeyEvent) -> (r: Option<KeyInput>)
    ensures
        r == decoded_key(*old(decoder), event),
        *final(decoder) == decoder_after_event(*old(decoder), event),
{
    match decoder.keyboard.process_keyevent(event) {
        Some(DecodedKey::Unicode(c)) => Some(KeyInput::Unicode(c)),
        Some(DecodedKey::RawKey(code)) => Some(KeyInput::Raw(code)),
        None => None,
    }
}

/// The key, if any, that scancode `byte` completes in decoder state `decoder`.
pub open spec fn scancode_key(decoder: KeyDecoder, byte: u8) -> Option<KeyInput> {
    match decoded_event(decoder, byte) {
        Some(event) => decoded_key(decoder_after_byte(decoder, byte), event),
        None => None,
    }
}

/// The decoder state after scancode `byte` has been handled in state `decoder`.
pub open spec fn decoder_after_scancode(decoder: KeyDecoder, byte: u8) -> KeyDecoder {
    match decoded_event(decoder, byte) {
        Some(event) => decoder_after_event(decoder_after_byte(decoder, byte), event),
        None => decoder_after_byte(decoder, byte),
    }
}

/// How the console answers `key` with line `line`: a character other than a line feed is
/// echoed and appended, a line feed submits the line and starts an empty one, and a key
/// without a character is reported by code with the line unchanged.
pub open spec fn key_answer(line: Seq<char>, key: KeyInput, r: KeyResponse, new_line: Seq<char>) -> bool {
    match key {
        KeyInput::Unicode(c) => if c != '\n' {
            r == KeyResponse::Echo(c) && new_line == line.push(c)
        } else {
            r is Submit && r->Submit_0@ == line && new_line == Seq::<char>::empty()
        },
        KeyInput::Raw(code) => r == KeyResponse::Raw(code) && new_line == line,
    }
}

/// `String::push` of std: appends `c` to `s`.
#[verifier::external_body]
fn string_push(s: &mut String, c: char)
    ensures
        final(s)@ == old(s)@.push(c),
{
    s.push(c)
}

/// A key press decoded from scancodes.
pub enum KeyInput {
    /// A key that types a character.
    Unicode(char),
    /// A key without a character, by its key code.
    Raw(KeyCode),
}

/// What the console shows or does after a key.
pub enum KeyResponse {
    /// No key was completed; nothing to show.
    Nothing,
    /// Echo the typed character; the line goes on.
    Echo(char),
    /// Echo the line feed, then run the finished line as a debug command.
    Submit(String),
    /// Show the name of a key that types no character.
    Raw(KeyCode),
}

/// The line after `typed` reaches the console through `handle_unicode`, starting from
/// `line`: each line feed starts a new, empty line, any other character is appended.
pub open spec fn line_after(line: Seq<char>, typed: Seq<char>) -> Seq<char>
    decreases typed.len(),
{
    if typed.len() == 0 {
        line
    } else {
        let before = line_after(line, typed.drop_last());
        if typed.last() == '\n' {
            Seq::empty()
        } else {
            before.push(typed.last())
        }
    }
}

/// The line submitted on a line feed is exactly what was typed since the previous one:
/// typing `typed`, which holds no line feed, after a line feed leaves `typed` as the line.
pub proof fn lemma_line_is_what_was_typed(line: Seq<char>, typed: Seq<char>)
    requires
        forall|i: int| 0 <= i < typed.len() ==> typed[i] != '\n',
    ensures
        line_after(line, seq!['\n'] + typed) == typed,
    decreases typed.len(),
{
    let all = seq!['\n'] + typed;
    if typed.len() == 0 {
        assert(all.drop_last() =~= Seq::<char>::empty());
        assert(all.last() == '\n');
    } else {
        let prefix = typed.drop_last();
        assert forall|i: int| 0 <= i < prefix.len() implies prefix[i] != '\n' by {
            assert(prefix[i] == typed[i]);
        }
        lemma_line_is_what_was_typed(line, prefix);
        assert(all.drop_last() =~= seq!['\n'] + prefix);
        assert(all.last() == typed.last());
        assert(typed.last() == typed[typed.len() - 1]);
        assert(prefix.push(typed.last()) =~= typed);
    }
}

/// How a console answers a key, in plain terms: a line feed submits the whole line and
/// leaves it empty, any other character is echoed and appended, and a key without a
/// character is reported by its code with the line unchanged.
pub proof fn lemma_key_answer_line(line: Seq<char>, key: KeyInput, r: KeyResponse, new_line: Seq<char>)
    requires
        key_answer(line, key, r, new_line),
    ensures
        key == KeyInput::Unicode('\n') ==> r is Submit && r->Submit_0@ == line && new_line.len() == 0,
        key matches KeyInput::Unicode(c) ==> (c != '\n' ==> r == KeyResponse::Echo(c) && new_line == line.push(c)),
        key matches KeyInput::Raw(code) ==> r == KeyResponse::Raw(code) && new_line == line,
{
}

/// The decoder keeps its state from one scancode to the next: after scancode `byte` it is
/// in the state pc-keyboard's `add_byte` leaves, followed, when that gave an event, by
/// the state `process_keyevent` leaves for it; the key is what `process_keyevent` gives
/// in the state `add_byte` left.
pub proof fn lemma_decoder_carries_state(decoder: KeyDecoder, byte: u8)
    ensures
        decoded_event(decoder, byte) is None ==> decoder_after_scancode(decoder, byte) == decoder_after_byte(decoder, byte)
            && scancode_key(decoder, byte) is None,
        decoded_event(decoder, byte) matches Some(e) ==> decoder_after_scancode(decoder, byte)
            == decoder_after_event(decoder_after_byte(decoder, byte), e)
            && scancode_key(decoder, byte) == decoded_key(decoder_after_byte(decoder, byte), e),
{
}

/// The interactive console: the keyboard decoder and the line being typed.
pub struct Console {
    decoder: KeyDecoder,
    line: String,
}

impl Console {
    /// The characters typed since the last line feed.
    pub closed spec fn line(self) -> Seq<char> {
        self.line@
    }

    /// The keyboard decoder's state.
    pub closed spec fn decoder_state(self) -> KeyDecoder {
        self.decoder
    }

    /// A console with an empty line and a fresh US-layout decoder that leaves Ctrl+letter
    /// as letters.
    pub fn new() -> (r: Self)
        ensures
            r.line() == Seq::<char>::empty(),
            r.decoder_state() == fresh_decoder(CtrlHandling::Ignore),
    {
        Console { decoder: keyboard_new(CtrlHandling::Ignore), line: String::new() }
    }

    /// Handles a typed character: a line feed hands over the finished line and starts a
    /// new one; any other character is added to the line.
    pub fn handle_unicode(&mut self, c: char) -> (r: KeyResponse)
        ensures
            c != '\n' ==> r == KeyResponse::Echo(c) && final(self).line() == old(self).line().push(c),
            c == '\n' ==> r is Submit && r->Submit_0@ == old(self).line() && final(self).line() == Seq::<char>::empty(),
            final(self).line() == line_after(old(self).line(), seq![c]),
            final(self).decoder_state() == old(self).decoder_state(),
    {
        proof {
            assert(seq![c].drop_last() =~= Seq::<char>::empty());
            assert(line_after(self.line@, seq![c].drop_last()) == self.line@);
            assert(seq![c].last() == c);
        }
        if c != '\n' {
            string_push(&mut self.line, c);
            KeyResponse::Echo(c)
        } else {
            let mut finished = String::new();
            std::mem::swap(&mut finished, &mut self.line);
            KeyResponse::Submit(finished)
        }
    }

    /// Handles a decoded key: characters go through `handle_unicode`, other keys are
    /// reported by code and leave the line as it is.
    pub fn handle_key(&mut self, key: KeyInput) -> (r: KeyResponse)
        ensures
            key_answer(old(self).line(), key, r, final(self).line()),
            final(self).decoder_state() == old(self).decoder_state(),
            key == KeyInput::Unicode('\n') ==> r is Submit && r->Submit_0@ == old(self).line() && final(self).line().len() == 0,
            key matches KeyInput::Unicode(c) ==> (c != '\n' ==> r == KeyResponse::Echo(c) && final(self).line() == old(self).line().push(c)),
            key is Raw ==> final(self).line() == old(self).line(),
    {
        match key {
            KeyInput::Unicode(c) => self.handle_unicode(c),
            KeyInput::Raw(code) => KeyResponse::Raw(code),
        }
    }

    /// Feeds one scancode to the decoder and handles the key it completes, if any.
    pub fn handle_scancode(&mut self, scancode: u8) -> (r: KeyResponse)
        ensures
            final(self).decoder_state() == decoder_after_scancode(old(self).decoder_state(), scancode),
            scancode_key(old(self).decoder_state(), scancode) is None ==> r is Nothing && final(self).line() == old(self).line(),
            scancode_key(old(self).decoder_state(), scancode) matches Some(key) ==> key_answer(old(self).line(), key, r, final(self).line()),
            decoded_event(old(self).decoder_state(), scancode) is None ==> r is Nothing
                && final(self).line() == old(self).line()
                && final(self).decoder_state() == decoder_after_byte(old(self).decoder_state(), scancode),
            decoded_event(old(self).decoder_state(), scancode) matches Some(e) ==> final(self).decoder_state()
                == decoder_after_event(decoder_after_byte(old(self).decoder_state(), scancode), e),
            decoded_event(old(self).decoder_state(), scancode) matches Some(e) ==> ({
                let key = decoded_key(decoder_after_byte(old(self).decoder_state(), scancode), e);
                &&& key == Some(KeyInput::Unicode('\n')) ==> r is Submit && r->Submit_0@ == old(self).line()
                    && final(self).line().len() == 0
                &&& key matches Some(KeyInput::Unicode(c)) ==> (c != '\n' ==> r == KeyResponse::Echo(c)
                    && final(self).line() == old(self).line().push(c))
                &&& key matches Some(KeyInput::Raw(code)) ==> r == KeyResponse::Raw(code) && final(self).line() == old(self).line()
                &&& key is None ==> r is Nothing && final(self).line() == old(self).line()
            }),
    {
        match keyboard_add_byte(&mut self.decoder, scancode) {
            Some(event) => match keyboard_process_event(&mut self.decoder, event) {
                Some(key) => self.handle_key(key),
                None => KeyResponse::Nothing,
            },
            None => KeyResponse::Nothing,
        }
    }
}

} // verus!
