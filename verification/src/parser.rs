//! Base mnemonics, condition suffixes, and the parser that splits a raw
//! mnemonic string such as `"addne"` into the two.

use vstd::prelude::*;
use vstd::string::StrSliceExecFns;
use crate::error::{ErrorKind, ExecutionError, res_matches};

verus! {

/// A base operation of the supported ARMv4 subset.
#[derive(Clone, Copy, PartialEq, Eq, Structural, Debug)]
pub enum Mnemonic {
    Add,
    Sub,
    Mul,
    And,
    Bic,
    Clz,
    Eor,
    Orr,
    Mla,
    Mov,
    Lsl,
    Lsr,
    Asr,
    Ror,
    Rrx,
    Mvn,
    Cmp,
    Cmn,
    Mrs,
}

/// A legal ARM condition suffix.  `Bare` is the empty suffix; `Al` is the
/// explicit "always" spelling.  The suffix never gates execution in this
/// engine: every instruction executes unconditionally.
#[derive(Clone, Copy, PartialEq, Eq, Structural, Debug)]
pub enum Cond {
    Bare,
    Eq,
    Ne,
    Cs,
    Hs,
    Cc,
    Lo,
    Mi,
    Pl,
    Vs,
    Vc,
    Hi,
    Ls,
    Ge,
    Lt,
    Gt,
    Le,
    Al,
}

/// The three characters that spell a base mnemonic.
pub open spec fn base_chars(m: Mnemonic) -> Seq<char> {
    match m {
        Mnemonic::Add => seq!['a', 'd', 'd'],
        Mnemonic::Sub => seq!['s', 'u', 'b'],
        Mnemonic::Mul => seq!['m', 'u', 'l'],
        Mnemonic::And => seq!['a', 'n', 'd'],
        Mnemonic::Bic => seq!['b', 'i', 'c'],
        Mnemonic::Clz => seq!['c', 'l', 'z'],
        Mnemonic::Eor => seq!['e', 'o', 'r'],
        Mnemonic::Orr => seq!['o', 'r', 'r'],
        Mnemonic::Mla => seq!['m', 'l', 'a'],
        Mnemonic::Mov => seq!['m', 'o', 'v'],
        Mnemonic::Lsl => seq!['l', 's', 'l'],
        Mnemonic::Lsr => seq!['l', 's', 'r'],
        Mnemonic::Asr => seq!['a', 's', 'r'],
        Mnemonic::Ror => seq!['r', 'o', 'r'],
        Mnemonic::Rrx => seq!['r', 'r', 'x'],
        Mnemonic::Mvn => seq!['m', 'v', 'n'],
        Mnemonic::Cmp => seq!['c', 'm', 'p'],
        Mnemonic::Cmn => seq!['c', 'm', 'n'],
        Mnemonic::Mrs => seq!['m', 'r', 's'],
    }
}

/// The characters that spell a condition suffix.
pub open spec fn cond_chars(c: Cond) -> Seq<char> {
    match c {
        Cond::Bare => seq![],
        Cond::Eq => seq!['e', 'q'],
        Cond::Ne => seq!['n', 'e'],
        Cond::Cs => seq!['c', 's'],
        Cond::Hs => seq!['h', 's'],
        Cond::Cc => seq!['c', 'c'],
        Cond::Lo => seq!['l', 'o'],
        Cond::Mi => seq!['m', 'i'],
        Cond::Pl => seq!['p', 'l'],
        Cond::Vs => seq!['v', 's'],
        Cond::Vc => seq!['v', 'c'],
        Cond::Hi => seq!['h', 'i'],
        Cond::Ls => seq!['l', 's'],
        Cond::Ge => seq!['g', 'e'],
        Cond::Lt => seq!['l', 't'],
        Cond::Gt => seq!['g', 't'],
        Cond::Le => seq!['l', 'e'],
        Cond::Al => seq!['a', 'l'],
    }
}

/// `m` is a recognized base mnemonic standing at the front of `s`.
pub open spec fn has_base(s: Seq<char>, m: Mnemonic) -> bool {
    s.len() >= 3 && s.subrange(0, 3) == base_chars(m)
}

/// The base mnemonic at the front of `s`, if any.  Every base is spelled
/// with exactly three characters, so at most one can match.
pub open spec fn base_of(s: Seq<char>) -> Option<Mnemonic> {
    if s.len() < 3 {
        Option::None
    } else if s.subrange(0, 3) == base_chars(Mnemonic::Add) {
        Option::Some(Mnemonic::Add)
    } else if s.subrange(0, 3) == base_chars(Mnemonic::Sub) {
        Option::Some(Mnemonic::Sub)
    } else if s.subrange(0, 3) == base_chars(Mnemonic::Mul) {
        Option::Some(Mnemonic::Mul)
    } else if s.subrange(0, 3) == base_chars(Mnemonic::And) {
        Option::Some(Mnemonic::And)
    } else if s.subrange(0, 3) == base_chars(Mnemonic::Bic) {
        Option::Some(Mnemonic::Bic)
    } else if s.subrange(0, 3) == base_chars(Mnemonic::Clz) {
        Option::Some(Mnemonic::Clz)
    } else if s.subrange(0, 3) == base_chars(Mnemonic::Eor) {
        Option::Some(Mnemonic::Eor)
    } else if s.subrange(0, 3) == base_chars(Mnemonic::Orr) {
        Option::Some(Mnemonic::Orr)
    } else if s.subrange(0, 3) == base_chars(Mnemonic::Mla) {
        Option::Some(Mnemonic::Mla)
    } else if s.subrange(0, 3) == base_chars(Mnemonic::Mov) {
        Option::Some(Mnemonic::Mov)
    } else if s.subrange(0, 3) == base_chars(Mnemonic::Lsl) {
        Option::Some(Mnemonic::Lsl)
    } else if s.subrange(0, 3) == base_chars(Mnemonic::Lsr) {
        Option::Some(Mnemonic::Lsr)
    } else if s.subrange(0, 3) == base_chars(Mnemonic::Asr) {
        Option::Some(Mnemonic::Asr)
    } else if s.subrange(0, 3) == base_chars(Mnemonic::Ror) {
        Option::Some(Mnemonic::Ror)
    } else if s.subrange(0, 3) == base_chars(Mnemonic::Rrx) {
        Option::Some(Mnemonic::Rrx)
    } else if s.subrange(0, 3) == base_chars(Mnemonic::Mvn) {
        Option::Some(Mnemonic::Mvn)
    } else if s.subrange(0, 3) == base_chars(Mnemonic::Cmp) {
        Option::Some(Mnemonic::Cmp)
    } else if s.subrange(0, 3) == base_chars(Mnemonic::Cmn) {
        Option::Some(Mnemonic::Cmn)
    } else if s.subrange(0, 3) == base_chars(Mnemonic::Mrs) {
        Option::Some(Mnemonic::Mrs)
    } else {
        Option::None
    }
}

/// The condition suffix spelled by the whole of `s`, if any.
pub open spec fn cond_of(s: Seq<char>) -> Option<Cond> {
    if s =~= cond_chars(Cond::Bare) {
        Option::Some(Cond::Bare)
    } else if s =~= cond_chars(Cond::Eq) {
        Option::Some(Cond::Eq)
    } else if s =~= cond_chars(Cond::Ne) {
        Option::Some(Cond::Ne)
    } else if s =~= cond_chars(Cond::Cs) {
        Option::Some(Cond::Cs)
    } else if s =~= cond_chars(Cond::Hs) {
        Option::Some(Cond::Hs)
    } else if s =~= cond_chars(Cond::Cc) {
        Option::Some(Cond::Cc)
    } else if s =~= cond_chars(Cond::Lo) {
        Option::Some(Cond::Lo)
    } else if s =~= cond_chars(Cond::Mi) {
        Option::Some(Cond::Mi)
    } else if s =~= cond_chars(Cond::Pl) {
        Option::Some(Cond::Pl)
    } else if s =~= cond_chars(Cond::Vs) {
        Option::Some(Cond::Vs)
    } else if s =~= cond_chars(Cond::Vc) {
        Option::Some(Cond::Vc)
    } else if s =~= cond_chars(Cond::Hi) {
        Option::Some(Cond::Hi)
    } else if s =~= cond_chars(Cond::Ls) {
        Option::Some(Cond::Ls)
    } else if s =~= cond_chars(Cond::Ge) {
        Option::Some(Cond::Ge)
    } else if s =~= cond_chars(Cond::Lt) {
        Option::Some(Cond::Lt)
    } else if s =~= cond_chars(Cond::Gt) {
        Option::Some(Cond::Gt)
    } else if s =~= cond_chars(Cond::Le) {
        Option::Some(Cond::Le)
    } else if s =~= cond_chars(Cond::Al) {
        Option::Some(Cond::Al)
    } else {
        Option::None
    }
}

/// How a raw mnemonic string splits into base and suffix, or which error
/// names the failure: no recognized base at the front, or a remainder that
/// is not a legal condition code.
pub open spec fn spec_split(s: Seq<char>) -> Result<(Mnemonic, Cond), ErrorKind> {
    match base_of(s) {
        Option::None => Err(ErrorKind::UnrecognizedMnemonic(s)),
        Option::Some(b) => match cond_of(s.skip(3)) {
            Option::None => Err(ErrorKind::UnknownCondition(s.skip(3))),
            Option::Some(c) => Ok((b, c)),
        },
    }
}

/// `base_of` answers exactly the bases that stand at the front of `s`.
pub proof fn lemma_base_of_exact(s: Seq<char>, m: Mnemonic)
    ensures
        base_of(s) == Some(m) <==> has_base(s, m),
{
    if has_base(s, m) {
        match m {
            Mnemonic::Add => {},
            Mnemonic::Sub => {},
            Mnemonic::Mul => {},
            Mnemonic::And => {},
            Mnemonic::Bic => {},
            Mnemonic::Clz => {},
            Mnemonic::Eor => {},
            Mnemonic::Orr => {},
            Mnemonic::Mla => {},
            Mnemonic::Mov => {},
            Mnemonic::Lsl => {},
            Mnemonic::Lsr => {},
            Mnemonic::Asr => {},
            Mnemonic::Ror => {},
            Mnemonic::Rrx => {},
            Mnemonic::Mvn => {},
            Mnemonic::Cmp => {},
            Mnemonic::Cmn => {},
            Mnemonic::Mrs => {},
        }
    }
}

/// `cond_of` answers exactly the suffix that `s` spells.
pub proof fn lemma_cond_of_exact(s: Seq<char>, c: Cond)
    ensures
        cond_of(s) == Some(c) <==> s == cond_chars(c),
{
    if s == cond_chars(c) {
        match c {
            Cond::Bare => {},
            Cond::Eq => {},
            Cond::Ne => {},
            Cond::Cs => {},
            Cond::Hs => {},
            Cond::Cc => {},
            Cond::Lo => {},
            Cond::Mi => {},
            Cond::Pl => {},
            Cond::Vs => {},
            Cond::Vc => {},
            Cond::Hi => {},
            Cond::Ls => {},
            Cond::Ge => {},
            Cond::Lt => {},
            Cond::Gt => {},
            Cond::Le => {},
            Cond::Al => {},
        }
    }
}

/// A length-three front segment equals a three-character sequence exactly
/// when the characters agree one by one.
proof fn lemma_front3(s: Seq<char>, t: Seq<char>, c0: char, c1: char, c2: char)
    requires
        s.len() >= 3,
        s[0] == c0,
        s[1] == c1,
        s[2] == c2,
        t.len() == 3,
    ensures
        (s.subrange(0, 3) == t) <==> (c0 == t[0] && c1 == t[1] && c2 == t[2]),
{
    if c0 == t[0] && c1 == t[1] && c2 == t[2] {
        assert(s.subrange(0, 3) =~= t);
    } else {
        assert(s.subrange(0, 3)[0] == c0);
        assert(s.subrange(0, 3)[1] == c1);
        assert(s.subrange(0, 3)[2] == c2);
    }
}

/// A two-character sequence equals another exactly when the characters
/// agree one by one.
proof fn lemma_pair(s: Seq<char>, t: Seq<char>, c0: char, c1: char)
    requires
        s.len() == 2,
        s[0] == c0,
        s[1] == c1,
        t.len() == 2,
    ensures
        (s == t) <==> (c0 == t[0] && c1 == t[1]),
{
    if c0 == t[0] && c1 == t[1] {
        assert(s =~= t);
    }
}

/// Splits a raw mnemonic into its base operation and condition suffix.
///
/// The recognized base is the three-letter prefix; the remainder must be
/// one of the eighteen legal condition codes (the empty suffix included).
/// A string with no recognized base fails with `UnrecognizedMnemonic`; a
/// recognized base followed by anything else fails with `UnknownCondition`.
#[verifier::rlimit(100)]
pub fn split_mnemonic(m: &str) -> (r: Result<(Mnemonic, Cond), ExecutionError>)
    ensures
        res_matches(r, spec_split(m@)),
{
    let n = m.unicode_len();
    if n < 3 {
        return Err(ExecutionError::UnrecognizedMnemonic(m.to_owned()));
    }
    let c0 = m.get_char(0);
    let c1 = m.get_char(1);
    let c2 = m.get_char(2);
    proof {
        lemma_front3(m@, base_chars(Mnemonic::Add), c0, c1, c2);
        lemma_front3(m@, base_chars(Mnemonic::Sub), c0, c1, c2);
        lemma_front3(m@, base_chars(Mnemonic::Mul), c0, c1, c2);
        lemma_front3(m@, base_chars(Mnemonic::And), c0, c1, c2);
        lemma_front3(m@, base_chars(Mnemonic::Bic), c0, c1, c2);
        lemma_front3(m@, base_chars(Mnemonic::Clz), c0, c1, c2);
        lemma_front3(m@, base_chars(Mnemonic::Eor), c0, c1, c2);
        lemma_front3(m@, base_chars(Mnemonic::Orr), c0, c1, c2);
        lemma_front3(m@, base_chars(Mnemonic::Mla), c0, c1, c2);
        lemma_front3(m@, base_chars(Mnemonic::Mov), c0, c1, c2);
        lemma_front3(m@, base_chars(Mnemonic::Lsl), c0, c1, c2);
        lemma_front3(m@, base_chars(Mnemonic::Lsr), c0, c1, c2);
        lemma_front3(m@, base_chars(Mnemonic::Asr), c0, c1, c2);
        lemma_front3(m@, base_chars(Mnemonic::Ror), c0, c1, c2);
        lemma_front3(m@, base_chars(Mnemonic::Rrx), c0, c1, c2);
        lemma_front3(m@, base_chars(Mnemonic::Mvn), c0, c1, c2);
        lemma_front3(m@, base_chars(Mnemonic::Cmp), c0, c1, c2);
        lemma_front3(m@, base_chars(Mnemonic::Cmn), c0, c1, c2);
        lemma_front3(m@, base_chars(Mnemonic::Mrs), c0, c1, c2);
    }
    let base: Mnemonic = if c0 == 'a' && c1 == 'd' && c2 == 'd' {
        Mnemonic::Add
    } else if c0 == 's' && c1 == 'u' && c2 == 'b' {
        Mnemonic::Sub
    } else if c0 == 'm' && c1 == 'u' && c2 == 'l' {
        Mnemonic::Mul
    } else if c0 == 'a' && c1 == 'n' && c2 == 'd' {
        Mnemonic::And
    } else if c0 == 'b' && c1 == 'i' && c2 == 'c' {
        Mnemonic::Bic
    } else if c0 == 'c' && c1 == 'l' && c2 == 'z' {
        Mnemonic::Clz
    } else if c0 == 'e' && c1 == 'o' && c2 == 'r' {
        Mnemonic::Eor
    } else if c0 == 'o' && c1 == 'r' && c2 == 'r' {
        Mnemonic::Orr
    } else if c0 == 'm' && c1 == 'l' && c2 == 'a' {
        Mnemonic::Mla
    } else if c0 == 'm' && c1 == 'o' && c2 == 'v' {
        Mnemonic::Mov
    } else if c0 == 'l' && c1 == 's' && c2 == 'l' {
        Mnemonic::Lsl
    } else if c0 == 'l' && c1 == 's' && c2 == 'r' {
        Mnemonic::Lsr
    } else if c0 == 'a' && c1 == 's' && c2 == 'r' {
        Mnemonic::Asr
    } else if c0 == 'r' && c1 == 'o' && c2 == 'r' {
        Mnemonic::Ror
    } else if c0 == 'r' && c1 == 'r' && c2 == 'x' {
        Mnemonic::Rrx
    } else if c0 == 'm' && c1 == 'v' && c2 == 'n' {
        Mnemonic::Mvn
    } else if c0 == 'c' && c1 == 'm' && c2 == 'p' {
        Mnemonic::Cmp
    } else if c0 == 'c' && c1 == 'm' && c2 == 'n' {
        Mnemonic::Cmn
    } else if c0 == 'm' && c1 == 'r' && c2 == 's' {
        Mnemonic::Mrs
    } else {
        return Err(ExecutionError::UnrecognizedMnemonic(m.to_owned()));
    };
    proof {
        assert(base_of(m@) == Some(base));
    }
    if n == 3 {
        proof {
            assert(m@.skip(3) =~= cond_chars(Cond::Bare));
        }
        return Ok((base, Cond::Bare));
    }
    if n != 5 {
        let rest = m.substring_char(3, n);
        proof {
            assert(rest@ =~= m@.skip(3));
            assert(m@.skip(3).len() != 0 && m@.skip(3).len() != 2);
            assert(cond_of(m@.skip(3)) is None);
        }
        return Err(ExecutionError::UnknownCondition(rest.to_owned()));
    }
    let c3 = m.get_char(3);
    let c4 = m.get_char(4);
    proof {
        assert(m@.skip(3).len() == 2);
        assert(m@.skip(3)[0] == c3);
        assert(m@.skip(3)[1] == c4);
        lemma_pair(m@.skip(3), cond_chars(Cond::Eq), c3, c4);
        lemma_pair(m@.skip(3), cond_chars(Cond::Ne), c3, c4);
        lemma_pair(m@.skip(3), cond_chars(Cond::Cs), c3, c4);
        lemma_pair(m@.skip(3), cond_chars(Cond::Hs), c3, c4);
        lemma_pair(m@.skip(3), cond_chars(Cond::Cc), c3, c4);
        lemma_pair(m@.skip(3), cond_chars(Cond::Lo), c3, c4);
        lemma_pair(m@.skip(3), cond_chars(Cond::Mi), c3, c4);
        lemma_pair(m@.skip(3), cond_chars(Cond::Pl), c3, c4);
        lemma_pair(m@.skip(3), cond_chars(Cond::Vs), c3, c4);
        lemma_pair(m@.skip(3), cond_chars(Cond::Vc), c3, c4);
        lemma_pair(m@.skip(3), cond_chars(Cond::Hi), c3, c4);
        lemma_pair(m@.skip(3), cond_chars(Cond::Ls), c3, c4);
        lemma_pair(m@.skip(3), cond_chars(Cond::Ge), c3, c4);
        lemma_pair(m@.skip(3), cond_chars(Cond::Lt), c3, c4);
        lemma_pair(m@.skip(3), cond_chars(Cond::Gt), c3, c4);
        lemma_pair(m@.skip(3), cond_chars(Cond::Le), c3, c4);
        lemma_pair(m@.skip(3), cond_chars(Cond::Al), c3, c4);
    }
    let cond: Cond = if c3 == 'e' && c4 == 'q' {
        Cond::Eq
    } else if c3 == 'n' && c4 == 'e' {
        Cond::Ne
    } else if c3 == 'c' && c4 == 's' {
        Cond::Cs
    } else if c3 == 'h' && c4 == 's' {
        Cond::Hs
    } else if c3 == 'c' && c4 == 'c' {
        Cond::Cc
    } else if c3 == 'l' && c4 == 'o' {
        Cond::Lo
    } else if c3 == 'm' && c4 == 'i' {
        Cond::Mi
    } else if c3 == 'p' && c4 == 'l' {
        Cond::Pl
    } else if c3 == 'v' && c4 == 's' {
        Cond::Vs
    } else if c3 == 'v' && c4 == 'c' {
        Cond::Vc
    } else if c3 == 'h' && c4 == 'i' {
        Cond::Hi
    } else if c3 == 'l' && c4 == 's' {
        Cond::Ls
    } else if c3 == 'g' && c4 == 'e' {
        Cond::Ge
    } else if c3 == 'l' && c4 == 't' {
        Cond::Lt
    } else if c3 == 'g' && c4 == 't' {
        Cond::Gt
    } else if c3 == 'l' && c4 == 'e' {
        Cond::Le
    } else if c3 == 'a' && c4 == 'l' {
        Cond::Al
    } else {
        let rest = m.substring_char(3, n);
        proof {
            assert(rest@ =~= m@.skip(3));
        }
        return Err(ExecutionError::UnknownCondition(rest.to_owned()));
    };
    Ok((base, cond))
}

} // verus!
