use vstd::prelude::*;

verus! {

/// How many lines the in-memory log buffer keeps; older lines are dropped first.
pub const LOG_CAPACITY: usize = 100;

/// The lines that a buffer holding `lines` keeps after one more line arrives:
/// the line goes to the back, and the oldest line leaves when the buffer is full.
pub open spec fn appended(lines: Seq<Seq<char>>, line: Seq<char>) -> Seq<Seq<char>> {
    if lines.len() >= LOG_CAPACITY {
        lines.drop_first().push(line)
    } else {
        lines.push(line)
    }
}

/// A bounded buffer of the most recent output lines of the engine.
pub struct LogBuffer {
    lines: Vec<String>,
}

impl View for LogBuffer {
    type V = Seq<Seq<char>>;

    closed spec fn view(&self) -> Seq<Seq<char>> {
        self.lines@.map_values(|s: String| s@)
    }
}

impl LogBuffer {
    #[verifier::type_invariant]
    closed spec fn bounded(self) -> bool {
        self.lines@.len() <= LOG_CAPACITY
    }

    pub fn new() -> (r: LogBuffer)
        ensures
            r@ == Seq::<Seq<char>>::empty(),
    {
        let r = LogBuffer { lines: Vec::new() };
        assert(r@ =~= Seq::<Seq<char>>::empty());
        r
    }

    pub fn len(&self) -> (r: usize)
        ensures
            r == self@.len(),
            r <= LOG_CAPACITY,
    {
        proof {
            use_type_invariant(self);
        }
        self.lines.len()
    }

    /// Adds a line at the back, dropping the oldest line when the buffer is full.
    pub fn append(&mut self, line: String)
        ensures
            final(self)@ == appended(old(self)@, line@),
            final(self)@.len() <= LOG_CAPACITY,
    {
        proof {
            use_type_invariant(&*self);
        }
        let mut lines: Vec<String> = Vec::new();
        std::mem::swap(&mut lines, &mut self.lines);
        let ghost before = lines@;
        if lines.len() >= LOG_CAPACITY {
            lines.remove(0);
        }
        lines.push(line);
        proof {
            if before.len() >= LOG_CAPACITY {
                assert(lines@ =~= before.drop_first().push(line));
            } else {
                assert(lines@ =~= before.push(line));
            }
            assert(lines@.map_values(|s: String| s@) =~= appended(
                before.map_values(|s: String| s@),
                line@,
            ));
        }
        self.lines = lines;
    }

    /// Removes every line.
    pub fn clear(&mut self)
        ensures
            final(self)@ == Seq::<Seq<char>>::empty(),
    {
        self.lines = Vec::new();
        assert(self@ =~= Seq::<Seq<char>>::empty());
    }

    /// A copy of the buffered lines, oldest first.
    pub fn lines(&self) -> (r: Vec<String>)
        ensures
            r@.map_values(|s: String| s@) == self@,
    {
        let mut out: Vec<String> = Vec::new();
        let mut i: usize = 0;
        while i < self.lines.len()
            invariant
                i <= self.lines@.len(),
                out@ == self.lines@.subrange(0, i as int),
            decreases self.lines@.len() - i,
        {
            out.push(self.lines[i].clone());
            assert(out@ =~= self.lines@.subrange(0, i + 1));
            i = i + 1;
        }
        assert(out@ =~= self.lines@);
        out
    }
}

} // verus!
