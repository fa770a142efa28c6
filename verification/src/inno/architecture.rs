//! Architecture constraints.
//!
//! Modern headers carry a textual boolean expression over a closed set of
//! architecture identifiers; older headers store a one-byte bitfield. Both
//! decode into [`ArchSet`] values. The expression grammar is minimal:
//! identifier terms, `not x` negation, with `and`, `or` and parentheses
//! accepted as separators — in practice the field is a disjunction of
//! terms with an optional `and not x` tail.

use vstd::prelude::*;

use crate::inno::reader::InnoError;

verus! {

/// The closed vocabulary of architecture identifiers.
#[derive(Clone, Copy, Debug, PartialEq, Eq, Structural)]
pub enum Arch {
    X86,
    X64,
    Arm64,
    Ia64,
    X86Compatible,
}

pub open spec fn spec_arch_index(a: Arch) -> u8 {
    match a {
        Arch::X86 => 0,
        Arch::X64 => 1,
        Arch::Arm64 => 2,
        Arch::Ia64 => 3,
        Arch::X86Compatible => 4,
    }
}

pub open spec fn arch_of(i: int) -> Arch {
    if i == 0 {
        Arch::X86
    } else if i == 1 {
        Arch::X64
    } else if i == 2 {
        Arch::Arm64
    } else if i == 3 {
        Arch::Ia64
    } else {
        Arch::X86Compatible
    }
}

impl Arch {
    pub fn index(&self) -> (i: u8)
        ensures
            i == spec_arch_index(*self),
            i <= 4,
    {
        match self {
            Arch::X86 => 0,
            Arch::X64 => 1,
            Arch::Arm64 => 2,
            Arch::Ia64 => 3,
            Arch::X86Compatible => 4,
        }
    }
}

pub open spec fn arch_mask(a: Arch) -> u8 {
    1u8 << spec_arch_index(a)
}

/// A set of architecture identifiers, one bit per identifier.
#[derive(Clone, Copy, Debug, PartialEq, Eq, Structural)]
pub struct ArchSet {
    pub bits: u8,
}

impl ArchSet {
    pub open spec fn spec_empty() -> ArchSet {
        ArchSet { bits: 0 }
    }

    /// The universal set: every identifier of the vocabulary.
    pub open spec fn spec_all() -> ArchSet {
        ArchSet { bits: 0x1f }
    }

    pub open spec fn has(self, a: Arch) -> bool {
        self.bits & arch_mask(a) != 0
    }

    pub open spec fn spec_insert(self, a: Arch) -> ArchSet {
        ArchSet { bits: self.bits | arch_mask(a) }
    }

    pub fn empty() -> (r: ArchSet)
        ensures
            r == ArchSet::spec_empty(),
    {
        ArchSet { bits: 0 }
    }

    pub fn all() -> (r: ArchSet)
        ensures
            r == ArchSet::spec_all(),
    {
        ArchSet { bits: 0x1f }
    }

    pub fn insert(&mut self, a: Arch)
        ensures
            *final(self) == old(self).spec_insert(a),
    {
        let i = a.index();
        assert(1u8 << (i as u8) == arch_mask(a));
        self.bits = self.bits | (1u8 << i);
    }

    pub fn contains(&self, a: Arch) -> (r: bool)
        ensures
            r == self.has(a),
    {
        let i = a.index();
        assert(1u8 << (i as u8) == arch_mask(a));
        (self.bits & (1u8 << i)) != 0
    }
}

/// Distinct identifiers sit on distinct bits.
pub proof fn lemma_arch_index_injective(a: Arch, b: Arch)
    requires
        spec_arch_index(a) == spec_arch_index(b),
    ensures
        a == b,
{
    assert(arch_of(spec_arch_index(a) as int) == a);
    assert(arch_of(spec_arch_index(b) as int) == b);
}

/// Inserting `a` sets exactly the membership of `a`.
pub proof fn lemma_arch_insert_has(s: ArchSet, a: Arch, b: Arch)
    ensures
        s.spec_insert(a).has(b) == (s.has(b) || a == b),
{
    let i = spec_arch_index(a);
    let j = spec_arch_index(b);
    let x = s.bits;
    assert(i <= 4 && j <= 4);
    assert(((x | (1u8 << i)) & (1u8 << j) != 0) == ((x & (1u8 << j) != 0) || i == j))
        by (bit_vector)
        requires
            i < 8 && j < 8,
    ;
    if i == j {
        lemma_arch_index_injective(a, b);
    }
}

/// The empty set holds no identifier; the universal set holds every one.
pub proof fn lemma_arch_empty_all(a: Arch)
    ensures
        !ArchSet::spec_empty().has(a),
        ArchSet::spec_all().has(a),
{
    let j = spec_arch_index(a);
    assert(j <= 4);
    assert(0u8 & (1u8 << j) == 0) by (bit_vector);
    assert(0x1fu8 & (1u8 << j) != 0) by (bit_vector)
        requires
            j < 5,
    ;
}

/// The one-byte architecture bitfield of headers before 6.3.0.
///
/// Bit 0 marks an unknown processor, bits 1 to 4 mark x86, x64, Itanium
/// and ARM64. Unknown bits are retained but map to no identifier.
#[derive(Clone, Copy, Debug, PartialEq, Eq, Structural)]
pub struct StoredArchitecture {
    pub bits: u8,
}

impl StoredArchitecture {
    pub fn from_bits_retain(bits: u8) -> (r: StoredArchitecture)
        ensures
            r == (StoredArchitecture { bits }),
    {
        StoredArchitecture { bits }
    }

    pub fn all() -> (r: StoredArchitecture)
        ensures
            r == (StoredArchitecture { bits: 0x1f }),
    {
        StoredArchitecture { bits: 0x1f }
    }

    /// The identifier set a stored bitfield denotes: the unknown bit maps
    /// to `X86Compatible`, the processor bits to their identifiers.
    pub open spec fn spec_to_identifiers(self) -> ArchSet {
        let s0 = ArchSet::spec_empty();
        let s1 = if self.bits & 0x01 != 0 {
            s0.spec_insert(Arch::X86Compatible)
        } else {
            s0
        };
        let s2 = if self.bits & 0x02 != 0 {
            s1.spec_insert(Arch::X86)
        } else {
            s1
        };
        let s3 = if self.bits & 0x04 != 0 {
            s2.spec_insert(Arch::X64)
        } else {
            s2
        };
        let s4 = if self.bits & 0x08 != 0 {
            s3.spec_insert(Arch::Ia64)
        } else {
            s3
        };
        if self.bits & 0x10 != 0 {
            s4.spec_insert(Arch::Arm64)
        } else {
            s4
        }
    }

    pub fn to_identifiers(&self) -> (r: ArchSet)
        ensures
            r == self.spec_to_identifiers(),
    {
        let mut s = ArchSet::empty();
        if self.bits & 0x01 != 0 {
            s.insert(Arch::X86Compatible);
        }
        if self.bits & 0x02 != 0 {
            s.insert(Arch::X86);
        }
        if self.bits & 0x04 != 0 {
            s.insert(Arch::X64);
        }
        if self.bits & 0x08 != 0 {
            s.insert(Arch::Ia64);
        }
        if self.bits & 0x10 != 0 {
            s.insert(Arch::Arm64);
        }
        s
    }
}

/// How one expression token is understood.
#[derive(Clone, Copy, Debug, PartialEq, Eq, Structural)]
pub enum Token {
    Not,
    Separator,
    Ident(Arch),
    Unknown,
}

/// Spaces that separate expression tokens.
pub open spec fn is_expr_space(c: char) -> bool {
    c == ' ' || c == '\t' || c == '\r' || c == '\n'
}

pub open spec fn is_paren(c: char) -> bool {
    c == '(' || c == ')'
}

/// The length of the token starting at the head of `s`.
pub open spec fn token_end(s: Seq<char>) -> nat
    decreases s.len(),
{
    if s.len() == 0 {
        0
    } else if is_expr_space(s[0]) || is_paren(s[0]) {
        0
    } else {
        1 + token_end(s.drop_first())
    }
}

/// Classifies one token: the keywords `not`, `and`, `or`; the closed
/// identifier vocabulary; anything else is unknown.
pub open spec fn spec_classify(t: Seq<char>) -> Token {
    if t =~= seq!['n', 'o', 't'] {
        Token::Not
    } else if t =~= seq!['a', 'n', 'd'] || t =~= seq!['o', 'r'] {
        Token::Separator
    } else if t =~= seq!['x', '8', '6'] {
        Token::Ident(Arch::X86)
    } else if t =~= seq!['x', '6', '4'] {
        Token::Ident(Arch::X64)
    } else if t =~= seq!['a', 'r', 'm', '6', '4'] {
        Token::Ident(Arch::Arm64)
    } else if t =~= seq!['i', 'a', '6', '4'] {
        Token::Ident(Arch::Ia64)
    } else if t =~= seq!['x', '8', '6', 'c', 'o', 'm', 'p', 'a', 't', 'i', 'b', 'l', 'e'] {
        Token::Ident(Arch::X86Compatible)
    } else {
        Token::Unknown
    }
}

/// Evaluates the expression in `s`: each identifier joins the allowed set,
/// or the disallowed set when it stands under a pending `not`; `and`, `or`
/// and parentheses separate terms; an unknown identifier is an error.
pub open spec fn eval_expr(s: Seq<char>, negate: bool, allowed: ArchSet, disallowed: ArchSet) ->
    Result<(ArchSet, ArchSet), InnoError>
    decreases s.len(),
{
    if s.len() == 0 {
        Ok((allowed, disallowed))
    } else if is_expr_space(s[0]) || is_paren(s[0]) {
        eval_expr(s.drop_first(), negate, allowed, disallowed)
    } else {
        // `token_end` never exceeds the length; the clamp only serves the
        // termination measure.
        let j = if token_end(s) <= s.len() {
            token_end(s) as int
        } else {
            s.len() as int
        };
        match spec_classify(s.subrange(0, j)) {
            Token::Not => eval_expr(s.subrange(j, s.len() as int), !negate, allowed, disallowed),
            Token::Separator => eval_expr(s.subrange(j, s.len() as int), negate, allowed,
                disallowed),
            Token::Ident(a) => eval_expr(
                s.subrange(j, s.len() as int),
                false,
                if negate {
                    allowed
                } else {
                    allowed.spec_insert(a)
                },
                if negate {
                    disallowed.spec_insert(a)
                } else {
                    disallowed
                },
            ),
            Token::Unknown => Err(InnoError::InvalidArchitectureExpression),
        }
    }
}

/// The meaning of a whole architecture expression.
pub open spec fn parse_arch_expression(s: Seq<char>) -> Result<(ArchSet, ArchSet), InnoError> {
    eval_expr(s, false, ArchSet::spec_empty(), ArchSet::spec_empty())
}

/// Everything before `token_end` is a token character, and `token_end`
/// stops at a space, a parenthesis or the end.
proof fn lemma_token_end_range(s: Seq<char>)
    ensures
        0 <= token_end(s) <= s.len(),
        forall|k: int|
            0 <= k < token_end(s) ==> !is_expr_space(#[trigger] s[k]) && !is_paren(s[k]),
        token_end(s) < s.len() ==> is_expr_space(s[token_end(s) as int]) || is_paren(s[token_end(s) as int]),
    decreases s.len(),
{
    if s.len() > 0 && !is_expr_space(s[0]) && !is_paren(s[0]) {
        lemma_token_end_range(s.drop_first());
        let t = token_end(s);
        assert forall|k: int| 0 <= k < t implies !is_expr_space(#[trigger] s[k]) && !is_paren(
            s[k],
        ) by {
            if k > 0 {
                assert(s.drop_first()[k - 1] == s[k]);
            }
        }
        if t < s.len() {
            assert(s.drop_first()[t as int - 1] == s[t as int]);
        }
    }
}

fn classify_token(chars: &Vec<char>, start: usize, end: usize) -> (t: Token)
    requires
        start <= end <= chars@.len(),
    ensures
        t == spec_classify(chars@.subrange(start as int, end as int)),
{
    let n = end - start;
    let ghost tk = chars@.subrange(start as int, end as int);
    if n == 3 && chars[start] == 'n' && chars[start + 1] == 'o' && chars[start + 2] == 't' {
        assert(tk =~= seq!['n', 'o', 't']);
        Token::Not
    } else if n == 3 && chars[start] == 'a' && chars[start + 1] == 'n' && chars[start + 2] == 'd' {
        assert(tk =~= seq!['a', 'n', 'd']);
        Token::Separator
    } else if n == 2 && chars[start] == 'o' && chars[start + 1] == 'r' {
        assert(tk =~= seq!['o', 'r']);
        Token::Separator
    } else if n == 3 && chars[start] == 'x' && chars[start + 1] == '8' && chars[start + 2] == '6' {
        assert(tk =~= seq!['x', '8', '6']);
        Token::Ident(Arch::X86)
    } else if n == 3 && chars[start] == 'x' && chars[start + 1] == '6' && chars[start + 2] == '4' {
        assert(tk =~= seq!['x', '6', '4']);
        Token::Ident(Arch::X64)
    } else if n == 5 && chars[start] == 'a' && chars[start + 1] == 'r' && chars[start + 2] == 'm'
        && chars[start + 3] == '6' && chars[start + 4] == '4' {
        assert(tk =~= seq!['a', 'r', 'm', '6', '4']);
        Token::Ident(Arch::Arm64)
    } else if n == 4 && chars[start] == 'i' && chars[start + 1] == 'a' && chars[start + 2] == '6'
        && chars[start + 3] == '4' {
        assert(tk =~= seq!['i', 'a', '6', '4']);
        Token::Ident(Arch::Ia64)
    } else if n == 13 && chars[start] == 'x' && chars[start + 1] == '8' && chars[start + 2] == '6'
        && chars[start + 3] == 'c' && chars[start + 4] == 'o' && chars[start + 5] == 'm'
        && chars[start + 6] == 'p' && chars[start + 7] == 'a' && chars[start + 8] == 't'
        && chars[start + 9] == 'i' && chars[start + 10] == 'b' && chars[start + 11] == 'l'
        && chars[start + 12] == 'e' {
        assert(tk =~= seq!['x', '8', '6', 'c', 'o', 'm', 'p', 'a', 't', 'i', 'b', 'l', 'e']);
        Token::Ident(Arch::X86Compatible)
    } else {
        proof {
            lemma_classify_unknown(tk);
        }
        Token::Unknown
    }
}

/// A token that matches none of the known spellings is unknown. Stated by
/// length and first mismatching position so that the exec comparison
/// chains suffice.
proof fn lemma_classify_unknown(t: Seq<char>)
    requires
        !(t =~= seq!['n', 'o', 't']),
        !(t =~= seq!['a', 'n', 'd']),
        !(t =~= seq!['o', 'r']),
        !(t =~= seq!['x', '8', '6']),
        !(t =~= seq!['x', '6', '4']),
        !(t =~= seq!['a', 'r', 'm', '6', '4']),
        !(t =~= seq!['i', 'a', '6', '4']),
        !(t =~= seq!['x', '8', '6', 'c', 'o', 'm', 'p', 'a', 't', 'i', 'b', 'l', 'e']),
    ensures
        spec_classify(t) == Token::Unknown,
{
}

fn is_space_char(c: char) -> (r: bool)
    ensures
        r == is_expr_space(c),
{
    c == ' ' || c == '\t' || c == '\r' || c == '\n'
}

fn is_paren_char(c: char) -> (r: bool)
    ensures
        r == is_paren(c),
{
    c == '(' || c == ')'
}

/// Parses an architecture expression into its allowed and disallowed
/// identifier sets.
pub fn from_expression_chars(chars: &Vec<char>) -> (r: Result<(ArchSet, ArchSet), InnoError>)
    ensures
        r == parse_arch_expression(chars@),
{
    let n = chars.len();
    let mut i: usize = 0;
    let mut negate = false;
    let mut allowed = ArchSet::empty();
    let mut disallowed = ArchSet::empty();
    proof {
        assert(chars@.subrange(0, n as int) =~= chars@);
    }
    while i < n
        invariant
            n == chars@.len(),
            i <= n,
            eval_expr(chars@.subrange(i as int, n as int), negate, allowed, disallowed)
                == parse_arch_expression(chars@),
        decreases n - i,
    {
        let ghost pre = chars@.subrange(i as int, n as int);
        let c = chars[i];
        if is_space_char(c) || is_paren_char(c) {
            proof {
                assert(pre.drop_first() =~= chars@.subrange(i + 1 as int, n as int));
            }
            i = i + 1;
        } else {
            // Scan to the end of the token.
            let mut j: usize = i + 1;
            while j < n && !is_space_char(chars[j]) && !is_paren_char(chars[j])
                invariant
                    n == chars@.len(),
                    i < j <= n,
                    forall|k: int|
                        i <= k < j ==> !is_expr_space(#[trigger] chars@[k]) && !is_paren(
                            chars@[k],
                        ),
                decreases n - j,
            {
                j = j + 1;
            }
            proof {
                lemma_token_end_range(pre);
                // The scan found exactly the spec token end.
                assert forall|k: int| 0 <= k < j - i implies !is_expr_space(#[trigger] pre[k])
                    && !is_paren(pre[k]) by {
                    assert(pre[k] == chars@[i + k]);
                }
                if j < n {
                    assert(pre[j - i] == chars@[j as int]);
                }
                assert(token_end(pre) == j - i) by {
                    let t = token_end(pre);
                    if t < j - i {
                        // The spec stop sits inside the scanned token run.
                        assert(!is_expr_space(pre[t as int]) && !is_paren(pre[t as int]));
                        assert(is_expr_space(pre[t as int]) || is_paren(pre[t as int]));
                    } else if t > j - i {
                        // The scan stopped on a token character.
                        assert(!is_expr_space(pre[j - i]) && !is_paren(pre[j - i]));
                        assert(j < n);
                    }
                }
                assert(pre.subrange(0, j - i) =~= chars@.subrange(i as int, j as int));
                assert(pre.subrange(j - i, pre.len() as int) =~= chars@.subrange(
                    j as int,
                    n as int,
                ));
            }
            let t = classify_token(chars, i, j);
            match t {
                Token::Not => {
                    negate = !negate;
                },
                Token::Separator => {
                },
                Token::Ident(a) => {
                    if negate {
                        disallowed.insert(a);
                    } else {
                        allowed.insert(a);
                    }
                    negate = false;
                },
                Token::Unknown => {
                    return Err(InnoError::InvalidArchitectureExpression);
                },
            }
            i = j;
        }
    }
    proof {
        assert(chars@.subrange(n as int, n as int) =~= Seq::<char>::empty());
    }
    Ok((allowed, disallowed))
}

} // verus!
