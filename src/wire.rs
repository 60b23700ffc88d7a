//! Text lines as they travel between the players: on the network a message is
//! a run of bytes ended by a newline; from the keyboard a line comes with its
//! line ending, which is dropped.
use vstd::prelude::*;
use vstd::string::StrSliceExecFns;
use vstd::string::StringExecFns;

verus! {

/// The byte that ends a message on the network.
pub const NEWLINE: u8 = 10;

/// Cut the bytes `data`, which follow the unfinished message `pending`, into
/// messages: the messages completed, in order and without their newline, and
/// what is left unfinished.
pub open spec fn frame(pending: Seq<u8>, data: Seq<u8>) -> (Seq<Seq<u8>>, Seq<u8>)
    decreases data.len(),
{
    if data.len() == 0 {
        (Seq::empty(), pending)
    } else {
        let (lines, rest) = frame(pending, data.drop_last());
        if data.last() == NEWLINE {
            (lines.push(rest), Seq::empty())
        } else {
            (lines, rest.push(data.last()))
        }
    }
}

/// The messages received so far on a connection, cut at each newline.
#[derive(Debug)]
pub struct LineBuffer {
    pending: Vec<u8>,
}

impl View for LineBuffer {
    type V = Seq<u8>;

    /// The bytes of the message not finished yet.
    closed spec fn view(&self) -> Seq<u8> {
        self.pending@
    }
}

impl LineBuffer {
    /// A buffer with nothing received.
    pub fn new() -> (r: Self)
        ensures
            r@ == Seq::<u8>::empty(),
    {
        LineBuffer { pending: Vec::new() }
    }

    /// Take the bytes `data` just received; returns the messages that they
    /// complete, in order and without their newline, and keeps the rest.
    pub fn feed(&mut self, data: &[u8]) -> (r: Vec<Vec<u8>>)
        ensures
            r@.len() == frame(old(self)@, data@).0.len(),
            forall|i: int| 0 <= i < r@.len() ==> #[trigger] r@[i]@ == frame(old(self)@, data@).0[i],
            final(self)@ == frame(old(self)@, data@).1,
    {
        let ghost start = self@;
        let mut l_lines: Vec<Vec<u8>> = Vec::new();
        let mut i: usize = 0;
        while i < data.len()
            invariant
                i <= data@.len(),
                l_lines@.len() == frame(start, data@.take(i as int)).0.len(),
                forall|k: int| 0 <= k < l_lines@.len() ==> #[trigger] l_lines@[k]@ == frame(start, data@.take(i as int)).0[k],
                self@ == frame(start, data@.take(i as int)).1,
            decreases data@.len() - i,
        {
            assert(data@.take(i + 1).drop_last() =~= data@.take(i as int));
            let b = data[i];
            if b == NEWLINE {
                let done = self.pending.clone();
                self.pending = Vec::new();
                l_lines.push(done);
            } else {
                self.pending.push(b);
            }
            i = i + 1;
        }
        assert(data@.take(i as int) =~= data@);
        l_lines
    }

    /// The bytes of the message not finished yet.
    pub fn pending(&self) -> (r: &[u8])
        ensures
            r@ == self@,
    {
        self.pending.as_slice()
    }
}

/// `c` ends a line: a line feed or a carriage return.
pub open spec fn is_line_end(c: char) -> bool {
    c == '\n' || c == '\r'
}

/// `s` without any line feed or carriage return.
pub open spec fn without_line_ends(s: Seq<char>) -> Seq<char>
    decreases s.len(),
{
    if s.len() == 0 {
        Seq::empty()
    } else if is_line_end(s.last()) {
        without_line_ends(s.drop_last())
    } else {
        without_line_ends(s.drop_last()).push(s.last())
    }
}

/// A line typed on the keyboard without its line feeds and carriage returns.
pub fn strip_line_end(s: &str) -> (r: String)
    ensures
        r@ == without_line_ends(s@),
{
    let n = s.unicode_len();
    let mut out = String::new();
    let mut i: usize = 0;
    while i < n
        invariant
            n == s@.len(),
            i <= n,
            out@ == without_line_ends(s@.take(i as int)),
        decreases n - i,
    {
        assert(s@.take(i + 1).drop_last() =~= s@.take(i as int));
        let c = s.get_char(i);
        if c != '\n' && c != '\r' {
            out.append(s.substring_char(i, i + 1));
            assert(s@.subrange(i as int, i + 1) =~= seq![c]);
        }
        i = i + 1;
        assert(out@ =~= without_line_ends(s@.take(i as int)));
    }
    assert(s@.take(n as int) =~= s@);
    out
}

} // verus!
