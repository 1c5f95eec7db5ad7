use vstd::prelude::*;

verus! {

/// Line feed.
pub const LF: u8 = 10;

/// Carriage return.
pub const CR: u8 = 13;

/// Length of a command record: the code byte and two argument bytes.
pub const COMMAND_LEN: usize = 3;

/// A byte that ends a command line.
pub open spec fn is_terminator(b: u8) -> bool {
    b == LF || b == CR
}

/// `input[t]` is the first terminator of `input`.
pub open spec fn line_ends_at(input: Seq<u8>, t: int) -> bool {
    &&& 0 <= t < input.len()
    &&& is_terminator(input[t])
    &&& forall|j: int| 0 <= j < t ==> !is_terminator(#[trigger] input[j])
}

/// Number of bytes a line whose terminator stands at `t` takes up: a line
/// feed ends it at once, a carriage return takes one more byte with it,
/// whatever that byte is.
pub open spec fn consumed_len(input: Seq<u8>, t: int) -> int {
    if input[t] == CR {
        t + 2
    } else {
        t + 1
    }
}

/// The command record of a line: its first three bytes, padded with zeros.
pub open spec fn command_of(line: Seq<u8>) -> Seq<u8> {
    Seq::new(COMMAND_LEN as nat, |i: int| if i < line.len() { line[i] } else { 0u8 })
}

/// The state of a reader between two bytes.
pub struct ReaderModel {
    /// Bytes of the current line kept so far (at most three).
    pub kept: Seq<u8>,
    /// A carriage return was seen; the next byte closes the line.
    pub after_cr: bool,
}

/// Turns a byte stream into command records, one byte at a time. Bytes past
/// the third of a line are dropped so that the stream stays in step with
/// the line terminators.
pub struct CommandReader {
    buf: [u8; 3],
    len: usize,
    after_cr: bool,
}

impl View for CommandReader {
    type V = ReaderModel;

    closed spec fn view(&self) -> ReaderModel {
        ReaderModel { kept: self.buf@.take(self.len as int), after_cr: self.after_cr }
    }
}

impl CommandReader {
    #[verifier::type_invariant]
    closed spec fn well_formed(self) -> bool {
        &&& self.len <= COMMAND_LEN
        &&& forall|j: int| self.len <= j < COMMAND_LEN ==> self.buf@[j] == 0
    }

    /// A reader at the start of a line.
    pub fn new() -> (r: CommandReader)
        ensures
            r@.kept.len() == 0,
            !r@.after_cr,
    {
        CommandReader { buf: [0u8; 3], len: 0, after_cr: false }
    }

    /// Feeds one byte. Returns the command record once the byte closes a
    /// line: a line feed, or any byte right after a carriage return.
    pub fn push(&mut self, byte: u8) -> (r: Option<[u8; 3]>)
        ensures
            old(self)@.after_cr || byte == LF ==> {
                &&& r matches Some(cmd) && cmd@ == command_of(old(self)@.kept)
                &&& final(self)@.kept.len() == 0
                &&& !final(self)@.after_cr
            },
            !old(self)@.after_cr && byte == CR ==> {
                &&& r is None
                &&& final(self)@.kept == old(self)@.kept
                &&& final(self)@.after_cr
            },
            !old(self)@.after_cr && !is_terminator(byte) ==> {
                &&& r is None
                &&& final(self)@.kept == if old(self)@.kept.len() < COMMAND_LEN {
                    old(self)@.kept.push(byte)
                } else {
                    old(self)@.kept
                }
                &&& !final(self)@.after_cr
            },
    {
        proof {
            use_type_invariant(&*self);
        }
        if self.after_cr || byte == LF {
            let cmd = self.buf;
            proof {
                assert(cmd@ =~= command_of(old(self)@.kept));
            }
            *self = CommandReader::new();
            Some(cmd)
        } else if byte == CR {
            *self = CommandReader { buf: self.buf, len: self.len, after_cr: true };
            None
        } else if self.len < COMMAND_LEN {
            let mut buf = self.buf;
            buf[self.len] = byte;
            let len = self.len + 1;
            proof {
                assert(buf@.take(len as int) =~= old(self)@.kept.push(byte));
            }
            *self = CommandReader { buf, len, after_cr: false };
            None
        } else {
            None
        }
    }
}

/// The bytes of a line a reader keeps once it has seen the first `k`.
pub open spec fn kept_prefix(input: Seq<u8>, k: int) -> Seq<u8> {
    input.take(if k < COMMAND_LEN { k } else { COMMAND_LEN as int })
}

/// Reads the first command line of `input`. Returns the command record and
/// the number of bytes the line took up, terminator included, or `None`
/// when `input` ends before the line is complete (no terminator, or a
/// carriage return as its last byte).
pub fn read_command(input: &[u8]) -> (r: Option<([u8; 3], usize)>)
    ensures
        r matches Some((cmd, n)) ==> exists|t: int|
            {
                &&& line_ends_at(input@, t)
                &&& n == consumed_len(input@, t)
                &&& cmd@ == command_of(input@.take(t))
            },
        r is None ==> forall|t: int|
            line_ends_at(input@, t) ==> consumed_len(input@, t) > input@.len(),
{
    let mut reader = CommandReader::new();
    let mut i: usize = 0;
    while i < input.len()
        invariant
            0 <= i <= input@.len(),
            !reader@.after_cr ==> {
                &&& forall|j: int| 0 <= j < i ==> !is_terminator(#[trigger] input@[j])
                &&& reader@.kept == kept_prefix(input@, i as int)
            },
            reader@.after_cr ==> {
                &&& i >= 1
                &&& input@[i - 1] == CR
                &&& forall|j: int| 0 <= j < i - 1 ==> !is_terminator(#[trigger] input@[j])
                &&& reader@.kept == kept_prefix(input@, i - 1)
            },
        decreases input@.len() - i,
    {
        let byte = input[i];
        let ghost before = reader@;
        match reader.push(byte) {
            Some(cmd) => {
                proof {
                    if before.after_cr {
                        assert(line_ends_at(input@, i - 1));
                        assert(command_of(before.kept) =~= command_of(input@.take(i - 1)));
                    } else {
                        assert(line_ends_at(input@, i as int));
                        assert(command_of(before.kept) =~= command_of(input@.take(i as int)));
                    }
                }
                return Some((cmd, i + 1));
            },
            None => {
                proof {
                    if !reader@.after_cr {
                        assert(reader@.kept =~= kept_prefix(input@, i + 1));
                    }
                }
            },
        }
        i = i + 1;
    }
    proof {
        assert forall|t: int| line_ends_at(input@, t) implies consumed_len(input@, t)
            > input@.len() by {
            if !reader@.after_cr {
                assert(!is_terminator(input@[t]));
            } else if t < i - 1 {
                assert(!is_terminator(input@[t]));
            }
        }
    }
    None
}

} // verus!
