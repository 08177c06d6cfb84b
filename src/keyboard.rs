use vstd::prelude::*;

verus! {

/// How many decoded keys the queue holds at most.
pub const KEYBUFFER_SIZE: usize = 128;

/// The named non-character keys that the kernel reacts to; every other one
/// is `Other`.
#[derive(Clone, Copy, Debug, PartialEq, Eq, Structural)]
pub enum RawKeyCode {
    F1,
    ArrowUp,
    ArrowDown,
    Other,
}

/// A decoded key: a character, or a key without one.
#[derive(Clone, Copy, Debug, PartialEq, Eq, Structural)]
pub enum KeyEvent {
    Unicode(char),
    RawKey(RawKeyCode),
}

/// A bounded first-in first-out ring of decoded keys. `tail` is the slot of
/// the oldest key, `count` the number of keys held.
#[derive(Debug)]
pub struct KeyCodeIter {
    buffer: Vec<KeyEvent>,
    tail: usize,
    count: usize,
}

impl View for KeyCodeIter {
    type V = Seq<KeyEvent>;

    /// The queued keys, oldest first.
    closed spec fn view(&self) -> Seq<KeyEvent> {
        Seq::new(self.count as nat, |i: int| self.buffer@[(self.tail + i) % (KEYBUFFER_SIZE as int)])
    }
}

impl KeyCodeIter {
    pub closed spec fn wf(&self) -> bool {
        &&& self.buffer@.len() == KEYBUFFER_SIZE
        &&& self.tail < KEYBUFFER_SIZE
        &&& self.count <= KEYBUFFER_SIZE
    }

    /// An empty queue.
    pub fn new() -> (r: KeyCodeIter)
        ensures
            r.wf(),
            r@ == Seq::<KeyEvent>::empty(),
    {
        let mut buffer: Vec<KeyEvent> = Vec::new();
        let mut i: usize = 0;
        while i < KEYBUFFER_SIZE
            invariant
                i <= KEYBUFFER_SIZE,
                buffer@.len() == i,
            decreases KEYBUFFER_SIZE - i,
        {
            buffer.push(KeyEvent::Unicode('\0'));
            i = i + 1;
        }
        let r = KeyCodeIter { buffer, tail: 0, count: 0 };
        assert(r@ =~= Seq::<KeyEvent>::empty());
        r
    }

    /// The number of queued keys.
    pub fn len(&self) -> (r: usize)
        requires
            self.wf(),
        ensures
            r == self@.len(),
    {
        self.count
    }

    /// Appends `key` to the queue. A key that arrives while the queue is full
    /// is dropped, so that the producer never waits.
    pub fn push(&mut self, key: KeyEvent)
        requires
            old(self).wf(),
        ensures
            final(self).wf(),
            old(self)@.len() < KEYBUFFER_SIZE ==> final(self)@ == old(self)@.push(key),
            old(self)@.len() >= KEYBUFFER_SIZE ==> final(self)@ == old(self)@,
    {
        if self.count < KEYBUFFER_SIZE {
            let slot = (self.tail + self.count) % KEYBUFFER_SIZE;
            self.buffer.set(slot, key);
            self.count = self.count + 1;
            assert(self@ =~= old(self)@.push(key)) by {
                assert forall|i: int| 0 <= i < old(self)@.len() implies #[trigger] self@[i]
                    == old(self)@[i] by {
                    assert((self.tail + i) % (KEYBUFFER_SIZE as int) != slot as int);
                }
            }
        }
    }

    /// Takes the oldest key out of the queue; `None` when it is empty.
    pub fn next(&mut self) -> (r: Option<KeyEvent>)
        requires
            old(self).wf(),
        ensures
            final(self).wf(),
            old(self)@.len() == 0 ==> r is None && final(self)@ == old(self)@,
            old(self)@.len() > 0 ==> r == Some(old(self)@[0]) && final(self)@ == old(self)@.drop_first(),
    {
        if self.count == 0 {
            None
        } else {
            let key = self.buffer[self.tail];
            self.tail = (self.tail + 1) % KEYBUFFER_SIZE;
            self.count = self.count - 1;
            assert(self@ =~= old(self)@.drop_first()) by {
                assert forall|i: int| 0 <= i < self@.len() implies #[trigger] self@[i]
                    == old(self)@.drop_first()[i] by {
                    assert((self.tail + i) % (KEYBUFFER_SIZE as int) == (old(self).tail + (i + 1))
                        % (KEYBUFFER_SIZE as int));
                }
            }
            Some(key)
        }
    }
}

} // verus!
