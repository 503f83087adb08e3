//! The four characters that name an instruction in a trace line.

use vstd::prelude::*;

verus! {

/// `std::string::String::push`, which comes without a contract: after the
/// call the string is what it was before with `c` appended. This is taken
/// from the standard library's documentation and not proved here.
pub assume_specification[ std::string::String::push ](s: &mut String, c: char)
    ensures
        final(s)@ == old(s)@.push(c),
;

/// The mark that opens a mnemonic: a star for an opcode outside the
/// documented set, a blank for one inside it.
pub open spec fn spec_mark(illegal: bool) -> char {
    if illegal {
        '*'
    } else {
        ' '
    }
}

/// The text of a mnemonic: the mark, then the first three characters of the
/// name.
pub open spec fn mnemonic_text(content: Seq<char>, illegal: bool) -> Seq<char> {
    seq![spec_mark(illegal), content[0], content[1], content[2]]
}

/// The name of an instruction as a trace line shows it: a mark and three
/// letters.
#[derive(Clone, Copy, PartialEq, Eq, Debug)]
pub struct Mnemonic {
    buf: [char; 4],
}

impl View for Mnemonic {
    type V = Seq<char>;

    closed spec fn view(&self) -> Seq<char> {
        self.buf@
    }
}

impl Mnemonic {
    /// The mnemonic of an instruction called `content`.
    pub closed spec fn spec_new(content: Seq<char>, illegal: bool) -> Mnemonic {
        Mnemonic { buf: [spec_mark(illegal), content[0], content[1], content[2]] }
    }

    /// Makes the mnemonic of an instruction from its three-letter name.
    pub fn new(content: &str, illegal: bool) -> (m: Mnemonic)
        requires
            content@.len() >= 3,
        ensures
            m == Self::spec_new(content@, illegal),
            m@ == mnemonic_text(content@, illegal),
    {
        let mark = if illegal {
            '*'
        } else {
            ' '
        };
        Mnemonic { buf: [mark, content.get_char(0), content.get_char(1), content.get_char(2)] }
    }

    /// The mnemonic as a string of four characters.
    pub fn to_string(&self) -> (s: String)
        ensures
            s@ == self@,
            s@.len() == 4,
    {
        let mut s = String::new();
        s.push(self.buf[0]);
        s.push(self.buf[1]);
        s.push(self.buf[2]);
        s.push(self.buf[3]);
        assert(s@ =~= self@);
        s
    }

    /// What `spec_new` makes reads as `mnemonic_text` says.
    pub proof fn lemma_spec_new(content: Seq<char>, illegal: bool)
        ensures
            Self::spec_new(content, illegal)@ == mnemonic_text(content, illegal),
    {
        assert(Self::spec_new(content, illegal)@ =~= mnemonic_text(content, illegal));
    }
}

} // verus!
