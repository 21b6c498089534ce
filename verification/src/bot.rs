use vstd::prelude::*;
use crate::text::same_text;

verus! {

/// The channel where the bot announces that a client is active.
pub const LOG_CHANNEL: u64 = 1501636741772349601;

/// The name under which this client announces itself.
pub fn fetch_client_name() -> (res: String)
    ensures
        res@ == "."@,
{
    String::from_str(".")
}

/// Whether `c` has the Unicode `White_Space` property, as `char::is_whitespace` says.
pub open spec fn is_white_space(c: char) -> bool {
    let u = c as u32;
    ||| 0x9 <= u <= 0xD
    ||| u == 0x20
    ||| u == 0x85
    ||| u == 0xA0
    ||| u == 0x1680
    ||| 0x2000 <= u <= 0x200A
    ||| u == 0x2028
    ||| u == 0x2029
    ||| u == 0x202F
    ||| u == 0x205F
    ||| u == 0x3000
}

/// Whether `c` is white space.
pub fn white_space(c: char) -> (res: bool)
    ensures
        res == is_white_space(c),
{
    let u = c as u32;
    (0x9 <= u && u <= 0xD) || u == 0x20 || u == 0x85 || u == 0xA0 || u == 0x1680 || (0x2000
        <= u && u <= 0x200A) || u == 0x2028 || u == 0x2029 || u == 0x202F || u == 0x205F || u
        == 0x3000
}

/// The first position at or after `i` that holds no white space (or the end).
pub open spec fn skip_space(s: Seq<char>, i: nat) -> nat
    decreases s.len() - i,
{
    if i < s.len() && is_white_space(s[i as int]) {
        skip_space(s, i + 1)
    } else {
        i
    }
}

/// The first position at or after `i` that holds white space (or the end).
pub open spec fn skip_word(s: Seq<char>, i: nat) -> nat
    decreases s.len() - i,
{
    if i < s.len() && !is_white_space(s[i as int]) {
        skip_word(s, i + 1)
    } else {
        i
    }
}

/// The first white-space separated word of `s` at or after position `i`, and where it ends.
pub open spec fn next_word(s: Seq<char>, i: nat) -> Option<(Seq<char>, nat)> {
    let start = skip_space(s, i);
    if start < s.len() {
        let end = skip_word(s, start);
        Some((s.subrange(start as int, end as int), end))
    } else {
        None
    }
}

/// The argument of a `fetch <id>` message: its second word, when its first is `fetch`.
pub open spec fn spec_fetch_argument(content: Seq<char>) -> Option<Seq<char>> {
    match next_word(content, 0) {
        Some((first, end)) => if first == "fetch"@ {
            match next_word(content, end) {
                Some((second, _)) => Some(second),
                None => None,
            }
        } else {
            None
        },
        None => None,
    }
}

proof fn lemma_skip_space_bounds(s: Seq<char>, i: nat)
    requires
        i <= s.len(),
    ensures
        i <= skip_space(s, i) <= s.len(),
    decreases s.len() - i,
{
    if i < s.len() && is_white_space(s[i as int]) {
        lemma_skip_space_bounds(s, i + 1);
    }
}

proof fn lemma_skip_word_bounds(s: Seq<char>, i: nat)
    requires
        i <= s.len(),
    ensures
        i <= skip_word(s, i) <= s.len(),
    decreases s.len() - i,
{
    if i < s.len() && !is_white_space(s[i as int]) {
        lemma_skip_word_bounds(s, i + 1);
    }
}

/// The word that starts at or after `from`, with the position just after it.
fn word_at<'a>(s: &'a str, from: usize) -> (res: Option<(&'a str, usize)>)
    requires
        from <= s@.len(),
    ensures
        match res {
            Some((w, end)) => next_word(s@, from as nat) == Some((w@, end as nat)),
            None => next_word(s@, from as nat) is None,
        },
{
    let n = s.unicode_len();
    let mut i = from;
    while i < n && white_space(s.get_char(i))
        invariant
            n == s@.len(),
            from <= i <= n,
            skip_space(s@, from as nat) == skip_space(s@, i as nat),
        decreases n - i,
    {
        i = i + 1;
    }
    if i == n {
        return None;
    }
    let start = i;
    proof {
        lemma_skip_word_bounds(s@, start as nat);
    }
    while i < n && !white_space(s.get_char(i))
        invariant
            n == s@.len(),
            start <= i <= n,
            skip_word(s@, start as nat) == skip_word(s@, i as nat),
        decreases n - i,
    {
        i = i + 1;
    }
    Some((s.substring_char(start, i), i))
}

/// The id that a message asks the bot to fetch: none for messages of bots, else the
/// second word of a message whose first word is `fetch`.
pub fn fetch_request(author_is_bot: bool, content: &str) -> (res: Option<String>)
    ensures
        author_is_bot ==> res is None,
        !author_is_bot ==> match res {
            Some(id) => spec_fetch_argument(content@) == Some(id@),
            None => spec_fetch_argument(content@) is None,
        },
{
    if author_is_bot {
        return None;
    }
    match word_at(content, 0) {
        Some((first, end)) => {
            if !same_text(first, "fetch") {
                return None;
            }
            proof {
                lemma_skip_space_bounds(content@, 0);
                lemma_skip_word_bounds(content@, skip_space(content@, 0));
            }
            match word_at(content, end) {
                Some((second, _)) => Some(String::from_str(second)),
                None => None,
            }
        },
        None => None,
    }
}

/// What the bot says when a client comes online.
pub fn ready_notice(client_name: &str) -> (res: String)
    ensures
        res@ == "Client "@ + client_name@ + " Active"@,
{
    let mut res = String::from_str("Client ");
    res.append(client_name);
    res.append(" Active");
    res
}

/// What the bot says before fetching a user.
pub fn fetch_notice(id: &str) -> (res: String)
    ensures
        res@ == "Attempting to fetch user by id "@ + id@,
{
    let mut res = String::from_str("Attempting to fetch user by id ");
    res.append(id);
    res
}

proof fn lemma_skip_space_props(s: Seq<char>, i: nat)
    requires
        i <= s.len(),
    ensures
        i <= skip_space(s, i) <= s.len(),
        forall|j: int| i <= j < skip_space(s, i) ==> is_white_space(#[trigger] s[j]),
        skip_space(s, i) < s.len() ==> !is_white_space(s[skip_space(s, i) as int]),
    decreases s.len() - i,
{
    if i < s.len() && is_white_space(s[i as int]) {
        lemma_skip_space_props(s, i + 1);
    }
}

proof fn lemma_skip_word_props(s: Seq<char>, i: nat)
    requires
        i <= s.len(),
    ensures
        i <= skip_word(s, i) <= s.len(),
        forall|j: int| i <= j < skip_word(s, i) ==> !is_white_space(#[trigger] s[j]),
        skip_word(s, i) < s.len() ==> is_white_space(s[skip_word(s, i) as int]),
    decreases s.len() - i,
{
    if i < s.len() && !is_white_space(s[i as int]) {
        lemma_skip_word_props(s, i + 1);
    }
}

proof fn lemma_skip_space_at(s: Seq<char>, i: nat, k: nat)
    requires
        i <= k <= s.len(),
        forall|j: int| i <= j < k ==> is_white_space(#[trigger] s[j]),
        k < s.len() ==> !is_white_space(s[k as int]),
    ensures
        skip_space(s, i) == k,
{
    lemma_skip_space_props(s, i);
    let m = skip_space(s, i);
    if m < k {
        assert(is_white_space(s[m as int]));
    }
    if k < m {
        assert(is_white_space(s[k as int]));
    }
}

proof fn lemma_skip_word_at(s: Seq<char>, i: nat, k: nat)
    requires
        i <= k <= s.len(),
        forall|j: int| i <= j < k ==> !is_white_space(#[trigger] s[j]),
        k < s.len() ==> is_white_space(s[k as int]),
    ensures
        skip_word(s, i) == k,
{
    lemma_skip_word_props(s, i);
    let m = skip_word(s, i);
    if m < k {
        assert(!is_white_space(s[m as int]));
    }
    if k < m {
        assert(!is_white_space(s[k as int]));
    }
}

/// The text holds only white space.
pub open spec fn all_white_space(s: Seq<char>) -> bool {
    forall|j: int| 0 <= j < s.len() ==> is_white_space(#[trigger] s[j])
}

/// The text holds no white space.
pub open spec fn no_white_space(s: Seq<char>) -> bool {
    forall|j: int| 0 <= j < s.len() ==> !is_white_space(#[trigger] s[j])
}

/// A message asks to fetch `id` exactly when it reads: optional white space, `fetch`,
/// some white space, then `id` (a run of non-white-space characters), then either the end
/// or white space followed by anything.
pub proof fn lemma_fetch_argument_is_second_word(content: Seq<char>, id: Seq<char>)
    ensures
        spec_fetch_argument(content) == Some(id) <==> exists|p: Seq<char>, q: Seq<char>, r: Seq<char>|
            #![trigger p + "fetch"@ + q + id + r]
            content == p + "fetch"@ + q + id + r && all_white_space(p) && all_white_space(q)
                && q.len() > 0 && id.len() > 0 && no_white_space(id) && (r.len() == 0
                || is_white_space(r[0])),
{
    reveal_strlit("fetch");
    let f = "fetch"@;
    assert(no_white_space(f)) by {
        assert forall|j: int| 0 <= j < f.len() implies !is_white_space(#[trigger] f[j]) by {}
    }
    // From the shape to the argument.
    assert forall|p: Seq<char>, q: Seq<char>, r: Seq<char>|
        content == p + f + q + id + r && all_white_space(p) && all_white_space(q) && q.len() > 0
            && id.len() > 0 && no_white_space(id) && (r.len() == 0 || is_white_space(r[0]))
        implies spec_fetch_argument(content) == Some(id) by {
        let a = p.len();
        let b = a + 5;
        let c = b + q.len();
        let d = c + id.len();
        assert(content.len() == d + r.len());
        assert forall|j: int| 0 <= j < a implies content[j] == p[j] by {}
        assert forall|j: int| a <= j < b implies content[j] == f[j - a] by {}
        assert forall|j: int| b <= j < c implies content[j] == q[j - b] by {}
        assert forall|j: int| c <= j < d implies content[j] == id[j - c] by {}
        assert forall|j: int| d <= j < content.len() implies content[j] == r[j - d] by {}
        assert forall|j: int| 0 <= j < a implies is_white_space(#[trigger] content[j]) by {
            assert(content[j] == p[j]);
        }
        assert(content[a as int] == f[0]);
        lemma_skip_space_at(content, 0, a as nat);
        assert forall|j: int| a <= j < b implies !is_white_space(#[trigger] content[j]) by {
            assert(content[j] == f[j - a]);
        }
        assert(content[b as int] == q[0]);
        lemma_skip_word_at(content, a as nat, b as nat);
        assert(content.subrange(a as int, b as int) =~= f);
        assert forall|j: int| b <= j < c implies is_white_space(#[trigger] content[j]) by {
            assert(content[j] == q[j - b]);
        }
        assert(content[c as int] == id[0]);
        lemma_skip_space_at(content, b as nat, c as nat);
        assert forall|j: int| c <= j < d implies !is_white_space(#[trigger] content[j]) by {
            assert(content[j] == id[j - c]);
        }
        if d < content.len() {
            assert(content[d as int] == r[0]);
        }
        lemma_skip_word_at(content, c as nat, d as nat);
        assert(content.subrange(c as int, d as int) =~= id);
    }
    // From the argument to the shape.
    if spec_fetch_argument(content) == Some(id) {
        lemma_skip_space_props(content, 0);
        let a = skip_space(content, 0);
        lemma_skip_word_props(content, a);
        let b = skip_word(content, a);
        assert(content.subrange(a as int, b as int) == f);
        lemma_skip_space_props(content, b);
        let c = skip_space(content, b);
        lemma_skip_word_props(content, c);
        let d = skip_word(content, c);
        assert(id == content.subrange(c as int, d as int));
        let p = content.subrange(0, a as int);
        let q = content.subrange(b as int, c as int);
        let r = content.subrange(d as int, content.len() as int);
        assert(content =~= p + f + q + id + r);
        assert(all_white_space(p));
        assert(all_white_space(q));
        assert(no_white_space(id));
        assert(b < content.len());
        assert(q.len() > 0);
        assert(id.len() > 0);
    }
}

} // verus!
