//! Reading the bearer credential of an upgrade request, and the identity a
//! verified credential names.

use vstd::prelude::*;

use crate::message::UserId;

verus! {

/// The Unicode White_Space characters, the separators of
/// `str::split_whitespace`.
pub open spec fn is_white_space(c: char) -> bool {
    let u = c as u32;
    (0x9 <= u <= 0xd) || u == 0x20 || u == 0x85 || u == 0xa0 || u == 0x1680 || (0x2000 <= u
        <= 0x200a) || u == 0x2028 || u == 0x2029 || u == 0x202f || u == 0x205f || u == 0x3000
}

/// `s` without its leading white space.
pub open spec fn skip_space(s: Seq<char>) -> Seq<char>
    decreases s.len(),
{
    if s.len() > 0 && is_white_space(s[0]) {
        skip_space(s.drop_first())
    } else {
        s
    }
}

/// The longest prefix of `s` without white space.
pub open spec fn first_word(s: Seq<char>) -> Seq<char>
    decreases s.len(),
{
    if s.len() > 0 && !is_white_space(s[0]) {
        seq![s[0]] + first_word(s.drop_first())
    } else {
        Seq::empty()
    }
}

/// The credential of an `Authorization` header value: the word after the
/// `"Bearer "` prefix, if the value has that prefix and such a word.
pub open spec fn bearer_token(header: Seq<char>) -> Option<Seq<char>> {
    let word = first_word(skip_space(header.skip(7)));
    if header.len() >= 7 && header.take(7) == "Bearer "@ && word.len() > 0 {
        Some(word)
    } else {
        None
    }
}

fn is_white_space_char(c: char) -> (r: bool)
    ensures
        r == is_white_space(c),
{
    let u = c as u32;
    (0x9 <= u && u <= 0xd) || u == 0x20 || u == 0x85 || u == 0xa0 || u == 0x1680 || (0x2000 <= u
        && u <= 0x200a) || u == 0x2028 || u == 0x2029 || u == 0x202f || u == 0x205f || u == 0x3000
}

proof fn lemma_skip_step(s: Seq<char>, i: int)
    requires
        0 <= i < s.len(),
        is_white_space(s[i]),
    ensures
        skip_space(s.skip(i)) == skip_space(s.skip(i + 1)),
{
    assert(s.skip(i).drop_first() =~= s.skip(i + 1));
}

proof fn lemma_word_step(s: Seq<char>, a: int, i: int)
    requires
        0 <= a <= i < s.len(),
        !is_white_space(s[i]),
        first_word(s.skip(a)) == s.subrange(a, i) + first_word(s.skip(i)),
    ensures
        first_word(s.skip(a)) == s.subrange(a, i + 1) + first_word(s.skip(i + 1)),
{
    assert(s.skip(i).drop_first() =~= s.skip(i + 1));
    assert(s.subrange(a, i + 1) =~= s.subrange(a, i) + seq![s[i]]);
    assert(s.subrange(a, i) + (seq![s[i]] + first_word(s.skip(i + 1))) =~= s.subrange(a, i + 1)
        + first_word(s.skip(i + 1)));
}

/// The bearer credential of an `Authorization` header value.
pub fn get_access_token_from_auth_header(header: &str) -> (r: Option<String>)
    ensures
        match r {
            Some(t) => bearer_token(header@) == Some(t@),
            None => bearer_token(header@) is None,
        },
{
    let ghost h = header@;
    let n = header.unicode_len();
    let prefix = "Bearer ";
    proof {
        reveal_strlit("Bearer ");
    }
    if n < 7 {
        return None;
    }
    let mut k: usize = 0;
    while k < 7
        invariant
            n == h.len(),
            h == header@,
            7 <= n,
            k <= 7,
            prefix@ == "Bearer "@,
            prefix@.len() == 7,
            forall|j: int| 0 <= j < k ==> h[j] == prefix@[j],
        decreases 7 - k,
    {
        if header.get_char(k) != prefix.get_char(k) {
            assert(h.take(7)[k as int] != "Bearer "@[k as int]);
            return None;
        }
        k = k + 1;
    }
    assert(h.take(7) =~= "Bearer "@);
    let mut a: usize = 7;
    while a < n && is_white_space_char(header.get_char(a))
        invariant
            n == h.len(),
            h == header@,
            7 <= a <= n,
            skip_space(h.skip(7)) == skip_space(h.skip(a as int)),
        decreases n - a,
    {
        proof {
            lemma_skip_step(h, a as int);
        }
        a = a + 1;
    }
    assert(skip_space(h.skip(a as int)) == h.skip(a as int));
    let mut b: usize = a;
    proof {
        assert(h.subrange(a as int, a as int) + first_word(h.skip(a as int)) =~= first_word(
            h.skip(a as int),
        ));
    }
    while b < n && !is_white_space_char(header.get_char(b))
        invariant
            n == h.len(),
            h == header@,
            a <= b <= n,
            first_word(h.skip(a as int)) == h.subrange(a as int, b as int) + first_word(
                h.skip(b as int),
            ),
        decreases n - b,
    {
        proof {
            lemma_word_step(h, a as int, b as int);
        }
        b = b + 1;
    }
    assert(first_word(h.skip(b as int)) =~= Seq::<char>::empty());
    assert(first_word(h.skip(a as int)) =~= h.subrange(a as int, b as int));
    if a == b {
        None
    } else {
        Some(String::from_str(header.substring_char(a, b)))
    }
}

/// The identity named by a verified credential.
#[derive(Clone, Copy, Debug, PartialEq, Eq)]
pub struct User {
    pub user_id: UserId,
}

impl User {
    /// The user's identifier.
    pub fn user_id(&self) -> (r: UserId)
        ensures
            r == self.user_id,
    {
        self.user_id
    }
}

} // verus!
