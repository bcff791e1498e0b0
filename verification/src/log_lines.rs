//! The store behind a log view: the latest lines, newest first, up to a
//! fixed number.

use vstd::prelude::*;

verus! {

/// The number of lines that a log keeps.
pub const BUFFER_CAPACITY: usize = 20;

/// The latest lines of a log. A new line goes to the front; once the store
/// is full, the oldest line leaves at the back.
#[derive(Debug)]
pub struct LogLines {
    buffer_capacity: usize,
    buf: Vec<String>,
    vertical_scroll: usize,
}

impl LogLines {
    /// The store holds no more than its capacity, which is not zero, and
    /// selects its newest line. Every store starts so and stays so.
    pub closed spec fn wf(&self) -> bool {
        &&& self.buffer_capacity > 0
        &&& self.buf@.len() <= self.buffer_capacity
        &&& self.vertical_scroll == if self.buf@.len() == 0 {
            0
        } else {
            self.buf@.len() - 1
        }
    }

    /// The number of lines that the store keeps at most.
    pub closed spec fn capacity(&self) -> int {
        self.buffer_capacity as int
    }

    /// The lines held, newest first.
    pub closed spec fn held(&self) -> Seq<String> {
        self.buf@
    }

    /// The index, counted from the oldest line, that a view of the store
    /// selects.
    pub closed spec fn scroll(&self) -> int {
        self.vertical_scroll as int
    }

    /// Adds a line at the front. A full store first gives up its oldest
    /// line. The newest line is selected afterwards.
    pub fn add_line(&mut self, line: String)
        ensures
            final(self).capacity() == old(self).capacity(),
            final(self).held() == seq![line] + (if old(self).held().len() == old(self).capacity()
                && old(self).held().len() > 0 {
                old(self).held().drop_last()
            } else {
                old(self).held()
            }),
            final(self).scroll() == final(self).held().len() - 1,
            old(self).wf() ==> final(self).wf(),
    {
        let ghost before = self.buf@;
        if self.buf.len() == self.buffer_capacity {
            self.buf.pop();
        }
        self.buf.insert(0, line);
        self.vertical_scroll = self.buf.len() - 1;
        proof {
            let kept = if before.len() == self.buffer_capacity && before.len() > 0 {
                before.drop_last()
            } else {
                before
            };
            assert(self.buf@ =~= seq![line] + kept);
        }
    }

    /// The lines held, newest first: never more than the capacity.
    pub fn lines(&self) -> (result: &Vec<String>)
        ensures
            result@ == self.held(),
            self.wf() ==> 0 < self.capacity() && result@.len() <= self.capacity(),
    {
        &self.buf
    }

    /// The index, counted from the oldest line, of the selected line: that
    /// of the newest line, or zero in an empty store.
    pub fn vertical_scroll(&self) -> (result: usize)
        ensures
            result == self.scroll(),
            self.wf() ==> result == if self.held().len() == 0 {
                0
            } else {
                self.held().len() - 1
            },
    {
        self.vertical_scroll
    }
}

impl Default for LogLines {
    fn default() -> (result: Self)
        ensures
            result.capacity() == 20,
            result.held() == Seq::<String>::empty(),
            result.scroll() == 0,
            result.wf(),
    {
        LogLines {
            buffer_capacity: BUFFER_CAPACITY,
            buf: Vec::with_capacity(BUFFER_CAPACITY),
            vertical_scroll: 0,
        }
    }
}

} // verus!
