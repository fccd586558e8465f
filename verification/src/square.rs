//! Squares of the 8x8 board and their two-character algebraic notation.

use vstd::prelude::*;
use vstd::string::StringSliceAdditionalSpecFns;

verus! {

/// A position on the board.
///
/// The backing index packs a rank and a file, each in `[0, 7]`, as
/// `rank * 8 + file`, giving an index in `[0, 63]` for every valid square.
/// In algebraic notation the letter spells the rank and the digit the file.
#[derive(Debug, Clone, Copy, PartialEq, Eq, Hash, Structural)]
pub struct Square(u8);

impl View for Square {
    type V = u8;

    closed spec fn view(&self) -> u8 {
        self.0
    }
}

impl Square {
    /// A square is well formed when its backing index stays on the board.
    pub open spec fn wf(self) -> bool {
        self@ <= 63
    }

    /// The backing index a square at `rank` and `file` has.
    pub open spec fn spec_index_of(rank: u8, file: u8) -> u8
        recommends
            rank <= 7,
            file <= 7,
    {
        (rank * 8 + file) as u8
    }

    /// Rank of a square, read back from its index.
    pub open spec fn spec_rank(self) -> u8 {
        (self@ / 8) as u8
    }

    /// File of a square, read back from its index.
    pub open spec fn spec_file(self) -> u8 {
        (self@ % 8) as u8
    }

    /// The square at a particular rank and file.
    pub fn at(rank: u8, file: u8) -> (r: Option<Square>)
        ensures
            r is Some <==> (rank <= 7 && file <= 7),
            r matches Some(sq) ==> sq.wf() && sq@ == Square::spec_index_of(rank, file)
                && sq.spec_rank() == rank && sq.spec_file() == file,
    {
        if rank > 7 || file > 7 {
            return None;
        }
        Some(Square(rank * 8 + file))
    }

    /// Rank of this square.
    pub fn rank(&self) -> (r: u8)
        ensures
            r == self.spec_rank(),
    {
        self.0 / 8
    }

    /// File of this square.
    pub fn file(&self) -> (r: u8)
        ensures
            r == self.spec_file(),
    {
        self.0 % 8
    }

    /// Get the internal index representation of this square.
    pub fn raw_index(&self) -> (r: u8)
        ensures
            r == self@,
    {
        self.0
    }

    /// Get the internal index representation of this square.
    ///
    /// Be careful while modifying this since it could invalidate the square
    /// position.
    pub fn raw_index_mut(&mut self) -> (r: &mut u8)
        ensures
            *r == old(self)@,
            final(self)@ == *final(r),
    {
        &mut self.0
    }

    /// Construct a square from an index skipping any validity checks.
    pub fn from_index_unchecked(index: u8) -> (r: Square)
        ensures
            r@ == index,
    {
        Square(index)
    }

    /// Whether byte `b` is an algebraic rank letter, `A`..`H` or `a`..`h`.
    pub open spec fn is_rank_byte(b: u8) -> bool {
        (65 <= b <= 72) || (97 <= b <= 104)
    }

    /// Whether byte `b` is an algebraic file digit, `1`..`8`.
    pub open spec fn is_file_byte(b: u8) -> bool {
        49 <= b <= 56
    }

    /// The rank a letter byte stands for, under the case heuristic: bytes
    /// above `H` count from `a`, others from `A`.
    pub open spec fn rank_of_byte(b: u8) -> u8
        recommends
            Square::is_rank_byte(b),
    {
        if b > 72 {
            (b - 97) as u8
        } else {
            (b - 65) as u8
        }
    }

    /// The file a digit byte stands for.
    pub open spec fn file_of_byte(b: u8) -> u8
        recommends
            Square::is_file_byte(b),
    {
        (b - 49) as u8
    }

    /// Whether a byte string is valid two-character algebraic notation.
    pub open spec fn spec_parse_valid(bytes: Seq<u8>) -> bool {
        bytes.len() == 2 && Square::is_rank_byte(bytes[0]) && Square::is_file_byte(bytes[1])
    }

    /// Determine a square's position from algebraic notation.
    pub fn from_str(s: &str) -> (r: Result<Square, ()>)
        ensures
            r is Ok <==> Square::spec_parse_valid(s.spec_bytes()),
            r matches Ok(sq) ==> sq.wf() && sq.spec_rank() == Square::rank_of_byte(
                s.spec_bytes()[0],
            ) && sq.spec_file() == Square::file_of_byte(s.spec_bytes()[1]),
    {
        if s.len() != 2 {
            return Err(());
        }
        let bytes = s.as_bytes();

        let rank = bytes[0];
        let rank = if rank > 72 {
            rank.wrapping_sub(97)
        } else {
            rank.wrapping_sub(65)
        };

        let file = bytes[1].wrapping_sub(49);

        Square::at(rank, file).ok_or(())
    }

    /// The lowercase letter of a rank.
    pub open spec fn rank_char(r: u8) -> char
        recommends
            r <= 7,
    {
        if r == 0 {
            'a'
        } else if r == 1 {
            'b'
        } else if r == 2 {
            'c'
        } else if r == 3 {
            'd'
        } else if r == 4 {
            'e'
        } else if r == 5 {
            'f'
        } else if r == 6 {
            'g'
        } else {
            'h'
        }
    }

    /// The digit of a file.
    pub open spec fn file_char(f: u8) -> char
        recommends
            f <= 7,
    {
        if f == 0 {
            '1'
        } else if f == 1 {
            '2'
        } else if f == 2 {
            '3'
        } else if f == 3 {
            '4'
        } else if f == 4 {
            '5'
        } else if f == 5 {
            '6'
        } else if f == 6 {
            '7'
        } else {
            '8'
        }
    }

    /// Algebraic notation of the square: its rank letter then its file digit.
    pub open spec fn spec_alg(self) -> Seq<char> {
        seq![Square::rank_char(self.spec_rank()), Square::file_char(self.spec_file())]
    }

    /// Format the square into algebraic notation, always lowercase.
    pub fn to_string(&self) -> (r: String)
        requires
            self.wf(),
        ensures
            r@ == self.spec_alg(),
    {
        let mut out = String::new();
        let letter: &str = match self.rank() {
            0 => "a",
            1 => "b",
            2 => "c",
            3 => "d",
            4 => "e",
            5 => "f",
            6 => "g",
            _ => "h",
        };
        proof {
            reveal_strlit("a");
            reveal_strlit("b");
            reveal_strlit("c");
            reveal_strlit("d");
            reveal_strlit("e");
            reveal_strlit("f");
            reveal_strlit("g");
            reveal_strlit("h");
            assert(letter@ =~= seq![Square::rank_char(self.spec_rank())]);
        }
        out.append(letter);
        let digit: &str = match self.file() {
            0 => "1",
            1 => "2",
            2 => "3",
            3 => "4",
            4 => "5",
            5 => "6",
            6 => "7",
            _ => "8",
        };
        proof {
            reveal_strlit("1");
            reveal_strlit("2");
            reveal_strlit("3");
            reveal_strlit("4");
            reveal_strlit("5");
            reveal_strlit("6");
            reveal_strlit("7");
            reveal_strlit("8");
            assert(digit@ =~= seq![Square::file_char(self.spec_file())]);
        }
        out.append(digit);
        proof {
            assert(out@ =~= self.spec_alg());
        }
        out
    }
}

impl vstd::std_specs::convert::TryFromSpecImpl<(u8, u8)> for Square {
    open spec fn obeys_try_from_spec() -> bool {
        true
    }

    closed spec fn try_from_spec(v: (u8, u8)) -> Result<Square, ()> {
        if v.0 <= 7 && v.1 <= 7 {
            Ok(Square((v.0 * 8 + v.1) as u8))
        } else {
            Err(())
        }
    }
}

impl TryFrom<(u8, u8)> for Square {
    type Error = ();

    /// Determine a square from a (rank, file) pair.
    fn try_from(value: (u8, u8)) -> (r: Result<Square, ()>)
        ensures
            r is Ok <==> (value.0 <= 7 && value.1 <= 7),
            r matches Ok(sq) ==> sq.wf() && sq.spec_rank() == value.0 && sq.spec_file()
                == value.1,
    {
        Square::at(value.0, value.1).ok_or(())
    }
}

/// Two squares are the same value exactly when their backing indices agree.
pub proof fn lemma_view_injective(a: Square, b: Square)
    ensures
        a == b <==> a@ == b@,
{
}

/// Round trip: the algebraic rendering of any valid square is itself valid
/// notation, and parsing it yields the same rank and file again.
pub proof fn lemma_algebraic_roundtrip(sq: Square, s: &str)
    requires
        sq.wf(),
        s@ == sq.spec_alg(),
    ensures
        Square::spec_parse_valid(s.spec_bytes()),
        Square::rank_of_byte(s.spec_bytes()[0]) == sq.spec_rank(),
        Square::file_of_byte(s.spec_bytes()[1]) == sq.spec_file(),
{
    assert(vstd::utf8::is_ascii_chars(s@));
    vstd::utf8::is_ascii_chars_encode_utf8(s@);
    assert(s.spec_bytes()[0] == sq.spec_alg()[0] as u8);
    assert(s.spec_bytes()[1] == sq.spec_alg()[1] as u8);
}

} // verus!
