//! Output sanitizing: strips the fence tags associated with shell
//! execution (`bash`, `sh`, `shell`, `powershell`, `cmd`) from fenced
//! code-block openers, leaving everything else unchanged.
//!
//! The scan walks the text once, left to right. When it meets a
//! triple-backtick fence it looks at the word that follows: if that word
//! is one of the five shell tags (ending at a character that is not an
//! ASCII lowercase letter, or at the end of the text), the word is
//! dropped; the scan then continues after the fence. This is a weak
//! mitigation against a downstream tool running returned snippets
//! blindly, not a security boundary.

use crate::text::{chars_to_string, str_to_chars};
use vstd::prelude::*;

verus! {

/// A fenced code-block opener: three backticks.
pub open spec fn fence() -> Seq<char> {
    seq!['`', '`', '`']
}

pub open spec fn tag_bash() -> Seq<char> {
    seq!['b', 'a', 's', 'h']
}

pub open spec fn tag_sh() -> Seq<char> {
    seq!['s', 'h']
}

pub open spec fn tag_shell() -> Seq<char> {
    seq!['s', 'h', 'e', 'l', 'l']
}

pub open spec fn tag_powershell() -> Seq<char> {
    seq!['p', 'o', 'w', 'e', 'r', 's', 'h', 'e', 'l', 'l']
}

pub open spec fn tag_cmd() -> Seq<char> {
    seq!['c', 'm', 'd']
}

/// An ASCII lowercase letter; tag words are made of these.
pub open spec fn is_lower(c: char) -> bool {
    'a' <= c && c <= 'z'
}

/// Whether `t` begins with the word `tag`, the word ending at the end of
/// `t` or at a character that is no lowercase letter.
pub open spec fn tag_matches(t: Seq<char>, tag: Seq<char>) -> bool {
    &&& tag.len() <= t.len()
    &&& t.take(tag.len() as int) == tag
    &&& (t.len() == tag.len() || !is_lower(t[tag.len() as int]))
}

/// The length of the shell tag that `t` begins with, if any.
pub open spec fn tag_at(t: Seq<char>) -> Option<nat> {
    if tag_matches(t, tag_powershell()) {
        Some(tag_powershell().len())
    } else if tag_matches(t, tag_shell()) {
        Some(tag_shell().len())
    } else if tag_matches(t, tag_bash()) {
        Some(tag_bash().len())
    } else if tag_matches(t, tag_cmd()) {
        Some(tag_cmd().len())
    } else if tag_matches(t, tag_sh()) {
        Some(tag_sh().len())
    } else {
        None
    }
}

/// Whether `s` begins with a triple-backtick fence.
pub open spec fn starts_fence(s: Seq<char>) -> bool {
    s.len() >= 3 && s[0] == '`' && s[1] == '`' && s[2] == '`'
}

/// The sanitized form of `s`: one left-to-right scan, each fence kept
/// and the shell tag right after it (if any) dropped.
pub open spec fn spec_sanitize(s: Seq<char>) -> Seq<char>
    decreases s.len(),
{
    if s.len() == 0 {
        s
    } else if starts_fence(s) {
        match tag_at(s.skip(3)) {
            Some(l) => fence() + spec_sanitize(s.skip(3 + l as int)),
            None => fence() + spec_sanitize(s.skip(3)),
        }
    } else {
        seq![s[0]] + spec_sanitize(s.skip(1))
    }
}

/// Whether a triple-backtick fence stands at position `i` of `s`.
pub open spec fn fence_at(s: Seq<char>, i: int) -> bool {
    &&& 0 <= i
    &&& i + 3 <= s.len()
    &&& s[i] == '`'
    &&& s[i + 1] == '`'
    &&& s[i + 2] == '`'
}

/// Whether `w` is one of the five shell fence tags.
pub open spec fn is_tag(w: Seq<char>) -> bool {
    ||| w == tag_bash()
    ||| w == tag_sh()
    ||| w == tag_shell()
    ||| w == tag_powershell()
    ||| w == tag_cmd()
}

/// Every tag is two to ten lowercase letters.
proof fn lemma_tag_chars(w: Seq<char>)
    requires
        is_tag(w),
    ensures
        2 <= w.len() <= 10,
        forall|i: int| 0 <= i < w.len() ==> is_lower(w[i]),
{
}

/// What a matched tag gives: a listed word, in lowercase, with a
/// boundary after it.
proof fn lemma_tag_some(x: Seq<char>, l: nat)
    requires
        tag_at(x) == Some(l),
    ensures
        l <= x.len(),
        is_tag(x.take(l as int)),
        x.len() == l || !is_lower(x[l as int]),
        2 <= l <= 10,
        forall|i: int| 0 <= i < l ==> is_lower(x[i]),
{
    lemma_tag_chars(x.take(l as int));
    assert(forall|i: int| 0 <= i < l ==> x[i] == x.take(l as int)[i]);
}

/// A listed word with a boundary is found by `tag_at`.
proof fn lemma_tag_complete(x: Seq<char>, w: Seq<char>)
    requires
        is_tag(w),
        w.len() <= x.len(),
        x.take(w.len() as int) == w,
        x.len() == w.len() || !is_lower(x[w.len() as int]),
    ensures
        tag_at(x) is Some,
{
    assert(tag_matches(x, w));
}

/// A tag starts with a lowercase letter, so nothing that starts
/// otherwise holds one.
proof fn lemma_tag_needs_lower(x: Seq<char>)
    requires
        x.len() == 0 || !is_lower(x[0]),
    ensures
        tag_at(x) is None,
{
    if tag_at(x) is Some {
        let l = tag_at(x)->Some_0;
        lemma_tag_some(x, l);
    }
}

/// Sanitizing keeps the first character.
proof fn lemma_head(s: Seq<char>)
    requires
        s.len() > 0,
    ensures
        spec_sanitize(s).len() > 0,
        spec_sanitize(s)[0] == s[0],
{
}

/// Sanitizing never lengthens the text.
proof fn lemma_len(s: Seq<char>)
    ensures
        spec_sanitize(s).len() <= s.len(),
    decreases s.len(),
{
    if s.len() == 0 {
    } else if starts_fence(s) {
        match tag_at(s.skip(3)) {
            Some(l) => {
                lemma_tag_some(s.skip(3), l);
                lemma_len(s.skip(3 + l as int));
            },
            None => {
                lemma_len(s.skip(3));
            },
        }
    } else {
        lemma_len(s.skip(1));
    }
}

/// Up to the first fence, sanitizing copies the text through.
proof fn lemma_prefix(s: Seq<char>, k: int)
    requires
        0 <= k <= s.len(),
        forall|i: int| 0 <= i < k ==> !fence_at(s, i),
    ensures
        spec_sanitize(s).len() >= k,
        forall|i: int| 0 <= i < k ==> spec_sanitize(s)[i] == s[i],
    decreases k,
{
    if k > 0 {
        assert(!fence_at(s, 0));
        assert(!starts_fence(s));
        assert(forall|i: int| 0 <= i < k - 1 ==> fence_at(s, i + 1) == #[trigger] fence_at(
            s.skip(1),
            i,
        ));
        lemma_prefix(s.skip(1), k - 1);
        assert(spec_sanitize(s) == seq![s[0]] + spec_sanitize(s.skip(1)));
        assert forall|i: int| 0 <= i < k implies spec_sanitize(s)[i] == s[i] by {
            if i > 0 {
                assert(spec_sanitize(s)[i] == spec_sanitize(s.skip(1))[i - 1]);
                assert(spec_sanitize(s.skip(1))[i - 1] == s.skip(1)[i - 1]);
                assert(s.skip(1)[i - 1] == s[i]);
            }
        }
    }
}

/// Through the first fence, sanitizing copies the text and the fence.
proof fn lemma_prefix_fence(s: Seq<char>, j: int)
    requires
        fence_at(s, j),
        forall|i: int| 0 <= i < j ==> !fence_at(s, i),
    ensures
        spec_sanitize(s).len() >= j + 3,
        forall|i: int| 0 <= i < j + 3 ==> spec_sanitize(s)[i] == s[i],
    decreases j,
{
    if j == 0 {
        assert(starts_fence(s));
        match tag_at(s.skip(3)) {
            Some(l) => {
                assert(spec_sanitize(s) == fence() + spec_sanitize(s.skip(3 + l as int)));
            },
            None => {
                assert(spec_sanitize(s) == fence() + spec_sanitize(s.skip(3)));
            },
        }
        assert(spec_sanitize(s)[0] == '`');
        assert(spec_sanitize(s)[1] == '`');
        assert(spec_sanitize(s)[2] == '`');
    } else {
        assert(!fence_at(s, 0));
        assert(!starts_fence(s));
        assert(forall|i: int| 0 <= i < j - 1 + 3 ==> s.skip(1)[i] == s[i + 1]);
        assert(fence_at(s.skip(1), j - 1));
        assert(forall|i: int| 0 <= i < j - 1 ==> fence_at(s, i + 1) == #[trigger] fence_at(
            s.skip(1),
            i,
        ));
        lemma_prefix_fence(s.skip(1), j - 1);
        assert(spec_sanitize(s) == seq![s[0]] + spec_sanitize(s.skip(1)));
        assert forall|i: int| 0 <= i < j + 3 implies spec_sanitize(s)[i] == s[i] by {
            if i > 0 {
                assert(spec_sanitize(s)[i] == spec_sanitize(s.skip(1))[i - 1]);
                assert(spec_sanitize(s.skip(1))[i - 1] == s.skip(1)[i - 1]);
                assert(s.skip(1)[i - 1] == s[i]);
            }
        }
    }
}

/// Among the fences up to `n`, there is a first one.
proof fn lemma_least_fence(s: Seq<char>, n: int)
    requires
        exists|i: int| 0 <= i < n && fence_at(s, i),
    ensures
        exists|j: int|
            0 <= j < n && fence_at(s, j) && (forall|i: int| 0 <= i < j ==> !fence_at(s, i)),
    decreases n,
{
    if exists|i: int| 0 <= i < n - 1 && fence_at(s, i) {
        lemma_least_fence(s, n - 1);
        let j = choose|j: int|
            0 <= j < n - 1 && fence_at(s, j) && (forall|i: int| 0 <= i < j ==> !fence_at(s, i));
        assert(0 <= j < n && fence_at(s, j) && (forall|i: int| 0 <= i < j ==> !fence_at(s, i)));
    } else {
        let j = choose|i: int| 0 <= i < n && fence_at(s, i);
        assert(j == n - 1);
        assert(forall|i: int| 0 <= i < j ==> !fence_at(s, i));
    }
}

/// Text that opens with no shell tag still opens with none once
/// sanitized.
proof fn lemma_no_tag(u: Seq<char>)
    requires
        tag_at(u) is None,
    ensures
        tag_at(spec_sanitize(u)) is None,
{
    if tag_at(spec_sanitize(u)) is Some {
        let l = tag_at(spec_sanitize(u))->Some_0;
        lemma_tag_some(spec_sanitize(u), l);
        let w = spec_sanitize(u).take(l as int);
        lemma_len(u);
        if exists|i: int| 0 <= i <= l && fence_at(u, i) {
            lemma_least_fence(u, l as int + 1);
            let j = choose|j: int|
                0 <= j < l + 1 && fence_at(u, j) && (forall|i: int|
                    0 <= i < j ==> !fence_at(u, i));
            lemma_prefix_fence(u, j);
            if j < l {
                assert(spec_sanitize(u)[j] == u[j]);
                assert(is_lower(w[j]));
                assert(w[j] == '`');
                assert(false);
            } else {
                assert(u.take(l as int) =~= w);
                assert(!is_lower(u[l as int]));
                lemma_tag_complete(u, w);
                assert(false);
            }
        } else {
            assert(forall|i: int| 0 <= i <= l ==> !fence_at(u, i));
            if u.len() >= l + 1 {
                lemma_prefix(u, l as int + 1);
                assert(u.take(l as int) =~= w);
                assert(!is_lower(spec_sanitize(u)[l as int]));
                lemma_tag_complete(u, w);
                assert(false);
            } else {
                lemma_prefix(u, u.len() as int);
                assert(spec_sanitize(u) =~= u);
                assert(false);
            }
        }
    }
}

/// Text that opens with no fence still opens with none once sanitized.
proof fn lemma_not_fence(u: Seq<char>)
    requires
        u.len() > 0,
        !starts_fence(u),
    ensures
        spec_sanitize(u).len() > 0,
        !starts_fence(spec_sanitize(u)),
{
    lemma_head(u);
    assert(!fence_at(u, 0));
    if fence_at(u, 1) {
        lemma_prefix_fence(u, 1);
    } else if fence_at(u, 2) {
        lemma_prefix_fence(u, 2);
    } else if u.len() >= 3 {
        lemma_prefix(u, 3);
    } else {
        lemma_len(u);
    }
}

/// The sanitizer is idempotent: a second pass changes nothing.
pub proof fn lemma_sanitize_idempotent(s: Seq<char>)
    ensures
        spec_sanitize(spec_sanitize(s)) == spec_sanitize(s),
    decreases s.len(),
{
    if s.len() == 0 {
    } else if starts_fence(s) {
        match tag_at(s.skip(3)) {
            Some(l) => {
                lemma_tag_some(s.skip(3), l);
                let rest = s.skip(3 + l as int);
                assert(spec_sanitize(s) == fence() + spec_sanitize(rest));
                assert(starts_fence(spec_sanitize(s)));
                assert(spec_sanitize(s).skip(3) =~= spec_sanitize(rest));
                if rest.len() == 0 {
                    assert(spec_sanitize(rest) =~= rest);
                    lemma_tag_needs_lower(spec_sanitize(rest));
                } else {
                    assert(rest[0] == s.skip(3)[l as int]);
                    assert(!is_lower(rest[0]));
                    lemma_head(rest);
                    lemma_tag_needs_lower(spec_sanitize(rest));
                }
                lemma_sanitize_idempotent(rest);
                assert(spec_sanitize(spec_sanitize(s)) == fence() + spec_sanitize(
                    spec_sanitize(rest),
                ));
            },
            None => {
                let rest = s.skip(3);
                assert(spec_sanitize(s) == fence() + spec_sanitize(rest));
                assert(starts_fence(spec_sanitize(s)));
                assert(spec_sanitize(s).skip(3) =~= spec_sanitize(rest));
                lemma_no_tag(rest);
                lemma_sanitize_idempotent(rest);
                assert(spec_sanitize(spec_sanitize(s)) == fence() + spec_sanitize(
                    spec_sanitize(rest),
                ));
            },
        }
    } else {
        assert(spec_sanitize(s) == seq![s[0]] + spec_sanitize(s.skip(1)));
        lemma_not_fence(s);
        lemma_head(s);
        assert(spec_sanitize(s)[0] == s[0]);
        assert(spec_sanitize(s).skip(1) =~= spec_sanitize(s.skip(1)));
        lemma_sanitize_idempotent(s.skip(1));
        assert(spec_sanitize(spec_sanitize(s)) == seq![spec_sanitize(s)[0]] + spec_sanitize(
            spec_sanitize(s).skip(1),
        ));
    }
}

/// The sanitizer rewrites nothing but the five listed tags: text in
/// which no fence is followed by a listed tag comes back unchanged.
pub proof fn lemma_sanitize_untagged(s: Seq<char>)
    requires
        forall|i: int| fence_at(s, i) ==> tag_at(#[trigger] s.skip(i + 3)) is None,
    ensures
        spec_sanitize(s) == s,
    decreases s.len(),
{
    if s.len() == 0 {
    } else if starts_fence(s) {
        assert(fence_at(s, 0));
        assert(tag_at(s.skip(3)) is None);
        assert(forall|i: int| fence_at(s.skip(3), i) ==> fence_at(s, i + 3));
        assert(forall|i: int|
            fence_at(s.skip(3), i) ==> #[trigger] s.skip(3).skip(i + 3) =~= s.skip(i + 3 + 3));
        lemma_sanitize_untagged(s.skip(3));
        assert(spec_sanitize(s) == fence() + s.skip(3));
        assert(fence() + s.skip(3) =~= s);
    } else {
        assert(forall|i: int| fence_at(s.skip(1), i) ==> fence_at(s, i + 1));
        assert(forall|i: int|
            fence_at(s.skip(1), i) ==> #[trigger] s.skip(1).skip(i + 3) =~= s.skip(i + 1 + 3));
        lemma_sanitize_untagged(s.skip(1));
        assert(spec_sanitize(s) == seq![s[0]] + s.skip(1));
        assert(seq![s[0]] + s.skip(1) =~= s);
    }
}

/// Whether the word `w` stands at position `j` of `v` with a tag
/// boundary after it.
fn word_at(v: &Vec<char>, j: usize, w: &Vec<char>) -> (r: bool)
    requires
        j <= v.len(),
    ensures
        r == tag_matches(v@.skip(j as int), w@),
{
    if v.len() - j < w.len() {
        return false;
    }
    let mut i: usize = 0;
    while i < w.len()
        invariant
            i <= w.len(),
            j + w.len() <= v.len(),
            forall|k: int| 0 <= k < i ==> v@[j + k] == w@[k],
        decreases w.len() - i,
    {
        if v[j + i] != w[i] {
            proof {
                assert(v@.skip(j as int).take(w@.len() as int)[i as int] != w@[i as int]);
            }
            return false;
        }
        i = i + 1;
    }
    proof {
        assert(v@.skip(j as int).take(w@.len() as int) =~= w@);
    }
    if j + w.len() == v.len() {
        true
    } else {
        let c: char = v[j + w.len()];
        !(c >= 'a' && c <= 'z')
    }
}

/// The length of the shell tag standing at position `j` of `v`, if any.
fn tag_after(v: &Vec<char>, j: usize) -> (r: Option<usize>)
    requires
        j <= v.len(),
    ensures
        match r {
            Some(l) => tag_at(v@.skip(j as int)) == Some(l as nat) && j + l <= v.len(),
            None => tag_at(v@.skip(j as int)) is None,
        },
{
    let powershell: Vec<char> = vec!['p', 'o', 'w', 'e', 'r', 's', 'h', 'e', 'l', 'l'];
    let shell: Vec<char> = vec!['s', 'h', 'e', 'l', 'l'];
    let bash: Vec<char> = vec!['b', 'a', 's', 'h'];
    let cmd: Vec<char> = vec!['c', 'm', 'd'];
    let sh: Vec<char> = vec!['s', 'h'];
    proof {
        assert(powershell@ =~= tag_powershell());
        assert(shell@ =~= tag_shell());
        assert(bash@ =~= tag_bash());
        assert(cmd@ =~= tag_cmd());
        assert(sh@ =~= tag_sh());
    }
    if word_at(v, j, &powershell) {
        Some(10)
    } else if word_at(v, j, &shell) {
        Some(5)
    } else if word_at(v, j, &bash) {
        Some(4)
    } else if word_at(v, j, &cmd) {
        Some(3)
    } else if word_at(v, j, &sh) {
        Some(2)
    } else {
        None
    }
}

/// Sanitizes a character sequence; see the module notes for the scan.
pub fn sanitize_chars(input: &Vec<char>) -> (out: Vec<char>)
    ensures
        out@ == spec_sanitize(input@),
{
    let mut out: Vec<char> = Vec::new();
    let mut i: usize = 0;
    proof {
        assert(input@.skip(0) =~= input@);
    }
    while i < input.len()
        invariant
            i <= input.len(),
            spec_sanitize(input@) == out@ + spec_sanitize(input@.skip(i as int)),
        decreases input.len() - i,
    {
        let ghost rest: Seq<char> = input@.skip(i as int);
        if input.len() - i >= 3 && input[i] == '`' && input[i + 1] == '`' && input[i + 2] == '`' {
            proof {
                assert(rest[0] == '`' && rest[1] == '`' && rest[2] == '`');
                assert(starts_fence(rest));
            }
            out.push('`');
            out.push('`');
            out.push('`');
            proof {
                assert(rest.skip(3) =~= input@.skip(i as int + 3));
            }
            match tag_after(input, i + 3) {
                Some(l) => {
                    proof {
                        assert(spec_sanitize(rest) == fence() + spec_sanitize(
                            rest.skip(3 + l as int),
                        ));
                        assert(rest.skip(3 + l as int) =~= input@.skip(i as int + 3 + l));
                    }
                    i = i + 3 + l;
                },
                None => {
                    proof {
                        assert(spec_sanitize(rest) == fence() + spec_sanitize(rest.skip(3)));
                    }
                    i = i + 3;
                },
            }
        } else {
            proof {
                assert(!starts_fence(rest)) by {
                    if input.len() - i >= 3 {
                        assert(rest[0] == input@[i as int]);
                        assert(rest[1] == input@[i as int + 1]);
                        assert(rest[2] == input@[i as int + 2]);
                    }
                };
                assert(spec_sanitize(rest) == seq![rest[0]] + spec_sanitize(rest.skip(1)));
                assert(rest.skip(1) =~= input@.skip(i as int + 1));
            }
            out.push(input[i]);
            i = i + 1;
        }
    }
    proof {
        assert(input@.skip(i as int) =~= Seq::<char>::empty());
        assert(spec_sanitize(input@) =~= out@);
    }
    out
}

/// Sanitizes returned model text; the contract is exactly
/// [`spec_sanitize`] on the text's characters.
pub fn sanitize_text(output: &str) -> (r: String)
    ensures
        r@ == spec_sanitize(output@),
{
    let chars: Vec<char> = str_to_chars(output);
    let clean: Vec<char> = sanitize_chars(&chars);
    chars_to_string(&clean)
}

} // verus!
