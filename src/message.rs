//! The wire format of the message bridge.
//!
//! A message crosses the native boundary as JSON text of the shape
//! `{"type":"Variant"}`: one object whose `type` field names the variant.
//! Outbound messages are written in exactly that form; inbound text may carry
//! JSON whitespace around every token. A channel declares its variants as a
//! list of distinct tags; a channel that declares none is the disabled one.
use vstd::prelude::*;
use vstd::string::*;

verus! {

/// The message type of a channel that is not used: no value of it can be
/// made, since its one field is of a type that has no value.
#[derive(Clone, Copy, Debug, PartialEq, Eq)]
pub struct NoMsg(pub core::convert::Infallible);

/// A message from the page that can hand itself to the host's event
/// system, through the host's event proxy `P`.
pub trait ReceiveWebviewMessage<P> {
    fn pass_to_event_loop_proxy(self, proxy: &P);
}

impl<P> ReceiveWebviewMessage<P> for NoMsg {
    /// No message of this type exists, so there is nothing to hand on.
    fn pass_to_event_loop_proxy(self, _proxy: &P) {
    }
}

/// A character that may stand in a variant tag.
pub open spec fn is_tag_char(c: char) -> bool {
    ('a' <= c && c <= 'z') || ('A' <= c && c <= 'Z') || ('0' <= c && c <= '9') || c == '_'
}

/// A tag names a variant: one or more tag characters.
pub open spec fn valid_tag(t: Seq<char>) -> bool {
    t.len() > 0 && forall|k: int| 0 <= k < t.len() ==> #[trigger] is_tag_char(t[k])
}

/// A declared list of variants: every tag valid, no tag twice.
pub open spec fn wf_tags(tags: Seq<Seq<char>>) -> bool {
    &&& forall|i: int| 0 <= i < tags.len() ==> #[trigger] valid_tag(tags[i])
    &&& forall|i: int, j: int|
        0 <= i < tags.len() && 0 <= j < tags.len() && i != j ==> #[trigger] tags[i] != #[trigger] tags[j]
}

/// The text sent for the variant tagged `t`.
pub open spec fn encode_spec(t: Seq<char>) -> Seq<char> {
    seq!['{', '"', 't', 'y', 'p', 'e', '"', ':', '"'] + t + seq!['"', '}']
}

/// JSON whitespace.
pub open spec fn is_ws(c: char) -> bool {
    c == ' ' || c == '\t' || c == '\n' || c == '\r'
}

/// The first position at or after `i` that holds no whitespace.
pub open spec fn skip_ws(s: Seq<char>, i: nat) -> nat
    decreases s.len() - i,
{
    if i < s.len() && is_ws(s[i as int]) {
        skip_ws(s, i + 1)
    } else {
        i
    }
}

/// The first position at or after `i` that holds no tag character.
pub open spec fn tag_run_end(s: Seq<char>, i: nat) -> nat
    decreases s.len() - i,
{
    if i < s.len() && is_tag_char(s[i as int]) {
        tag_run_end(s, i + 1)
    } else {
        i
    }
}

/// The position just after the character `c`, where `c` is the first
/// character after any whitespace from `i` on.
pub open spec fn token_end(s: Seq<char>, i: nat, c: char) -> Option<nat> {
    let j = skip_ws(s, i);
    if j < s.len() && s[j as int] == c {
        Some(j + 1)
    } else {
        None
    }
}

/// Whether `type"` stands at `i`: the key of the tag field and its closing quote.
pub open spec fn key_at(s: Seq<char>, i: nat) -> bool {
    &&& i + 5 <= s.len()
    &&& s[i as int] == 't'
    &&& s[i + 1int] == 'y'
    &&& s[i + 2int] == 'p'
    &&& s[i + 3int] == 'e'
    &&& s[i + 4int] == '"'
}

/// The length of `s` up to `n` once trailing whitespace is dropped.
pub open spec fn trim_end(s: Seq<char>, n: nat) -> nat
    decreases n,
{
    if 0 < n <= s.len() && is_ws(s[n - 1]) {
        trim_end(s, (n - 1) as nat)
    } else {
        n
    }
}

/// Whether the message ends properly after its tag, from `i` on: either a
/// `}` closes it, or a `,` opens payload fields and the text ends with the
/// `}` that closes them. The payload fields themselves are read by the
/// decoder of the message type, not here.
pub open spec fn closes_at(s: Seq<char>, i: nat) -> bool {
    match token_end(s, i, '}') {
        Some(g) => skip_ws(s, g) == s.len(),
        None => match token_end(s, i, ',') {
            Some(h) => {
                let z = trim_end(s, s.len());
                z > h && s[z - 1] == '}'
            },
            None => false,
        },
    }
}

/// The tag of `s`, where `s` is a well-formed message:
/// `{ "type" : "Tag" }`, or `{ "type" : "Tag", payload fields }`, with
/// optional whitespace between the tokens.
pub open spec fn extract_tag(s: Seq<char>) -> Option<Seq<char>> {
    match token_end(s, 0, '{') {
        None => None,
        Some(a) => match token_end(s, a, '"') {
            None => None,
            Some(b) => if !key_at(s, b) {
                None
            } else {
                match token_end(s, b + 5, ':') {
                    None => None,
                    Some(d) => match token_end(s, d, '"') {
                        None => None,
                        Some(e) => {
                            let f = tag_run_end(s, e);
                            if f > e && f < s.len() && s[f as int] == '"' {
                                if closes_at(s, f + 1) {
                                    Some(s.subrange(e as int, f as int))
                                } else {
                                    None
                                }
                            } else {
                                None
                            }
                        },
                    },
                }
            },
        },
    }
}

/// The first index from `i` on whose tag is `t`.
pub open spec fn find_tag(tags: Seq<Seq<char>>, t: Seq<char>, i: nat) -> Option<nat>
    decreases tags.len() - i,
{
    if i >= tags.len() {
        None
    } else if tags[i as int] == t {
        Some(i)
    } else {
        find_tag(tags, t, i + 1)
    }
}

/// The variant that the text `s` delivers on a channel with the variants
/// `tags`, if any.
pub open spec fn parse_spec(s: Seq<char>, tags: Seq<Seq<char>>) -> Option<nat> {
    match extract_tag(s) {
        None => None,
        Some(t) => find_tag(tags, t, 0),
    }
}

proof fn lemma_skip_ws_stops(s: Seq<char>, i: nat)
    requires
        i >= s.len() || !is_ws(s[i as int]),
    ensures
        skip_ws(s, i) == i,
{
    reveal_with_fuel(skip_ws, 1);
}

proof fn lemma_tag_run_exact(s: Seq<char>, i: nat, j: nat)
    requires
        i <= j < s.len(),
        forall|k: int| i <= k < j ==> is_tag_char(#[trigger] s[k]),
        !is_tag_char(s[j as int]),
    ensures
        tag_run_end(s, i) == j,
    decreases j - i,
{
    if i < j {
        lemma_tag_run_exact(s, i + 1, j);
    }
}

proof fn lemma_find_tag_distinct(tags: Seq<Seq<char>>, k: int, i: nat)
    requires
        wf_tags(tags),
        0 <= i <= k < tags.len(),
    ensures
        find_tag(tags, tags[k], i) == Some(k as nat),
    decreases k - i,
{
    if i < k {
        assert(tags[i as int] != tags[k]);
        lemma_find_tag_distinct(tags, k, i + 1);
    }
}

proof fn lemma_find_tag_found(tags: Seq<Seq<char>>, t: Seq<char>, i: nat)
    ensures
        find_tag(tags, t, i) matches Some(k) ==> i <= k < tags.len() && tags[k as int] == t,
    decreases tags.len() - i,
{
    if i < tags.len() && tags[i as int] != t {
        lemma_find_tag_found(tags, t, i + 1);
    }
}

/// Round trip: the text written for any declared variant is read back as
/// that same variant.
pub proof fn lemma_round_trip(tags: Seq<Seq<char>>, i: int)
    requires
        wf_tags(tags),
        0 <= i < tags.len(),
    ensures
        parse_spec(encode_spec(tags[i]), tags) == Some(i as nat),
{
    let t = tags[i];
    let s = encode_spec(t);
    assert(valid_tag(t));
    let n = t.len() as int;
    assert(s.len() == n + 11);
    assert(s[0] == '{');
    lemma_skip_ws_stops(s, 0);
    assert(s[1] == '"');
    lemma_skip_ws_stops(s, 1);
    assert(key_at(s, 2));
    assert(s[7] == ':');
    lemma_skip_ws_stops(s, 7);
    assert(s[8] == '"');
    lemma_skip_ws_stops(s, 8);
    assert forall|k: int| 9 <= k < 9 + n implies is_tag_char(#[trigger] s[k]) by {
        assert(s[k] == t[k - 9]);
    }
    assert(s[9 + n] == '"');
    lemma_tag_run_exact(s, 9, (9 + n) as nat);
    assert(s[10 + n] == '}');
    lemma_skip_ws_stops(s, (10 + n) as nat);
    lemma_skip_ws_stops(s, (11 + n) as nat);
    assert(closes_at(s, (10 + n) as nat));
    assert(s.subrange(9, 9 + n) =~= t);
    assert(extract_tag(s) == Some(t));
    lemma_find_tag_distinct(tags, i, 0);
}

/// Only the text of a declared variant delivers that variant: whatever
/// `parse_spec` yields is a declared index whose tag the text carries.
pub proof fn lemma_parse_delivers_only_declared(s: Seq<char>, tags: Seq<Seq<char>>)
    ensures
        parse_spec(s, tags) matches Some(k) ==> k < tags.len() && extract_tag(s) == Some(
            tags[k as int],
        ),
{
    if let Some(t) = extract_tag(s) {
        lemma_find_tag_found(tags, t, 0);
    }
}

/// Text that does not open with `{` (after whitespace) delivers nothing.
pub proof fn lemma_parse_rejects_unframed(s: Seq<char>, tags: Seq<Seq<char>>)
    requires
        skip_ws(s, 0) >= s.len() || s[skip_ws(s, 0) as int] != '{',
    ensures
        parse_spec(s, tags) is None,
{
}

/// The variants of one direction of the bridge, each named by its tag.
#[derive(Clone, Debug)]
pub struct MessageKinds {
    tags: Vec<String>,
}

impl View for MessageKinds {
    type V = Seq<Seq<char>>;

    closed spec fn view(&self) -> Seq<Seq<char>> {
        self.tags@.map_values(|t: String| t@)
    }
}

fn is_ws_char(c: char) -> (r: bool)
    ensures
        r == is_ws(c),
{
    c == ' ' || c == '\t' || c == '\n' || c == '\r'
}

fn is_tag_character(c: char) -> (r: bool)
    ensures
        r == is_tag_char(c),
{
    ('a' <= c && c <= 'z') || ('A' <= c && c <= 'Z') || ('0' <= c && c <= '9') || c == '_'
}

fn skip_whitespace(s: &str, n: usize, i: usize) -> (r: usize)
    requires
        n == s@.len(),
        i <= n,
    ensures
        r as nat == skip_ws(s@, i as nat),
        i <= r <= n,
{
    let mut j: usize = i;
    while j < n
        invariant
            n == s@.len(),
            i <= j <= n,
            skip_ws(s@, j as nat) == skip_ws(s@, i as nat),
        ensures
            i <= j <= n,
            skip_ws(s@, j as nat) == j,
            skip_ws(s@, j as nat) == skip_ws(s@, i as nat),
        decreases n - j,
    {
        if !is_ws_char(s.get_char(j)) {
            proof {
                lemma_skip_ws_stops(s@, j as nat);
            }
            break;
        }
        j = j + 1;
    }
    j
}

fn tag_run(s: &str, n: usize, i: usize) -> (r: usize)
    requires
        n == s@.len(),
        i <= n,
    ensures
        r as nat == tag_run_end(s@, i as nat),
        i <= r <= n,
{
    let mut j: usize = i;
    while j < n
        invariant
            n == s@.len(),
            i <= j <= n,
            tag_run_end(s@, j as nat) == tag_run_end(s@, i as nat),
        ensures
            i <= j <= n,
            tag_run_end(s@, j as nat) == j,
            tag_run_end(s@, j as nat) == tag_run_end(s@, i as nat),
        decreases n - j,
    {
        if !is_tag_character(s.get_char(j)) {
            break;
        }
        j = j + 1;
    }
    j
}

fn expect_token(s: &str, n: usize, i: usize, c: char) -> (r: Option<usize>)
    requires
        n == s@.len(),
        i <= n,
    ensures
        match r {
            Some(k) => token_end(s@, i as nat, c) == Some(k as nat) && k <= n,
            None => token_end(s@, i as nat, c) is None,
        },
{
    let j = skip_whitespace(s, n, i);
    if j < n && s.get_char(j) == c {
        Some(j + 1)
    } else {
        None
    }
}

fn has_key(s: &str, n: usize, i: usize) -> (r: bool)
    requires
        n == s@.len(),
        i <= n,
    ensures
        r == key_at(s@, i as nat),
{
    n - i >= 5 && s.get_char(i) == 't' && s.get_char(i + 1) == 'y' && s.get_char(i + 2) == 'p'
        && s.get_char(i + 3) == 'e' && s.get_char(i + 4) == '"'
}

/// The bounds of the tag in `s`, where `s` is a well-formed message.
fn tag_bounds(s: &str) -> (r: Option<(usize, usize)>)
    ensures
        match r {
            Some((e, f)) => e <= f <= s@.len() && extract_tag(s@) == Some(
                s@.subrange(e as int, f as int),
            ),
            None => extract_tag(s@) is None,
        },
{
    let n = s.unicode_len();
    let a = match expect_token(s, n, 0, '{') {
        Some(a) => a,
        None => return None,
    };
    let b = match expect_token(s, n, a, '"') {
        Some(b) => b,
        None => return None,
    };
    if !has_key(s, n, b) {
        return None;
    }
    let d = match expect_token(s, n, b + 5, ':') {
        Some(d) => d,
        None => return None,
    };
    let e = match expect_token(s, n, d, '"') {
        Some(e) => e,
        None => return None,
    };
    let f = tag_run(s, n, e);
    if !(f > e && f < n && s.get_char(f) == '"') {
        return None;
    }
    if closes(s, n, f + 1) {
        Some((e, f))
    } else {
        None
    }
}

fn trim_whitespace_end(s: &str, n: usize) -> (r: usize)
    requires
        n == s@.len(),
    ensures
        r as nat == trim_end(s@, n as nat),
        r <= n,
{
    let mut z: usize = n;
    while z > 0
        invariant
            n == s@.len(),
            z <= n,
            trim_end(s@, z as nat) == trim_end(s@, n as nat),
        ensures
            z <= n,
            trim_end(s@, z as nat) == z,
            trim_end(s@, z as nat) == trim_end(s@, n as nat),
        decreases z,
    {
        if !is_ws_char(s.get_char(z - 1)) {
            break;
        }
        z = z - 1;
    }
    z
}

fn closes(s: &str, n: usize, i: usize) -> (r: bool)
    requires
        n == s@.len(),
        i <= n,
    ensures
        r == closes_at(s@, i as nat),
{
    match expect_token(s, n, i, '}') {
        Some(g) => skip_whitespace(s, n, g) == n,
        None => match expect_token(s, n, i, ',') {
            Some(h) => {
                let z = trim_whitespace_end(s, n);
                z > h && s.get_char(z - 1) == '}'
            },
            None => false,
        },
    }
}

/// Whether the characters of `s` from `e` to `f` spell `t`.
fn spells(s: &str, e: usize, f: usize, t: &String) -> (r: bool)
    requires
        e <= f <= s@.len(),
    ensures
        r == (s@.subrange(e as int, f as int) == t@),
{
    let ts = t.as_str();
    let m = ts.unicode_len();
    if f - e != m {
        return false;
    }
    let mut k: usize = 0;
    while k < m
        invariant
            e <= f <= s@.len(),
            f - e == m,
            m == t@.len(),
            ts@ == t@,
            0 <= k <= m,
            forall|q: int| 0 <= q < k ==> s@[e + q] == t@[q],
        decreases m - k,
    {
        if s.get_char(e + k) != ts.get_char(k) {
            assert(s@.subrange(e as int, f as int)[k as int] != t@[k as int]);
            return false;
        }
        k = k + 1;
    }
    assert(s@.subrange(e as int, f as int) =~= t@);
    true
}

impl MessageKinds {
    /// The well-formedness of a channel's declaration.
    pub open spec fn wf(&self) -> bool {
        wf_tags(self@)
    }

    /// The disabled channel: it declares no variant, so nothing can be sent
    /// on it and nothing is ever delivered from it.
    pub fn none() -> (r: MessageKinds)
        ensures
            r@ == Seq::<Seq<char>>::empty(),
            r.wf(),
    {
        let r = MessageKinds { tags: Vec::new() };
        assert(r@ =~= Seq::<Seq<char>>::empty());
        r
    }

    /// Declares a channel with the variants `tags`, in order; `None` where a
    /// tag is empty, holds a character other than an ASCII letter, digit or
    /// `_`, or stands twice.
    pub fn new(tags: Vec<String>) -> (r: Option<MessageKinds>)
        ensures
            r is Some <==> wf_tags(tags@.map_values(|t: String| t@)),
            r matches Some(k) ==> k@ == tags@.map_values(|t: String| t@) && k.wf(),
    {
        let ghost v = tags@.map_values(|t: String| t@);
        let mut i: usize = 0;
        while i < tags.len()
            invariant
                v == tags@.map_values(|t: String| t@),
                0 <= i <= tags.len(),
                forall|p: int| 0 <= p < i ==> #[trigger] valid_tag(v[p]),
                forall|p: int, q: int|
                    0 <= p < i && 0 <= q < i && p != q ==> #[trigger] v[p] != #[trigger] v[q],
            decreases tags.len() - i,
        {
            let t = tags[i].as_str();
            let m = t.unicode_len();
            if m == 0 {
                assert(!valid_tag(v[i as int]));
                return None;
            }
            let mut k: usize = 0;
            while k < m
                invariant
                    v == tags@.map_values(|t: String| t@),
                    0 <= i < tags.len(),
                    t@ == v[i as int],
                    m == t@.len(),
                    0 <= k <= m,
                    forall|q: int| 0 <= q < k ==> is_tag_char(#[trigger] t@[q]),
                decreases m - k,
            {
                if !is_tag_character(t.get_char(k)) {
                    assert(!valid_tag(v[i as int]));
                    return None;
                }
                k = k + 1;
            }
            assert(valid_tag(v[i as int]));
            let mut p: usize = 0;
            while p < i
                invariant
                    v == tags@.map_values(|t: String| t@),
                    0 <= p <= i < tags.len(),
                    forall|q: int| 0 <= q < p ==> v[q] != v[i as int],
                decreases i - p,
            {
                if tags[p] == tags[i] {
                    assert(v[p as int] == v[i as int]);
                    return None;
                }
                p = p + 1;
            }
            i = i + 1;
        }
        let r = MessageKinds { tags };
        assert(r@ == v);
        Some(r)
    }

    /// A copy of this declaration.
    pub fn duplicate(&self) -> (r: MessageKinds)
        ensures
            r@ == self@,
    {
        let mut tags: Vec<String> = Vec::new();
        let mut i: usize = 0;
        while i < self.tags.len()
            invariant
                0 <= i <= self.tags@.len(),
                tags@.len() == i,
                forall|q: int| 0 <= q < i ==> #[trigger] tags@[q]@ == self.tags@[q]@,
            decreases self.tags.len() - i,
        {
            tags.push(self.tags[i].clone());
            i = i + 1;
        }
        let r = MessageKinds { tags };
        assert(r@ =~= self@);
        r
    }

    /// The number of declared variants.
    pub fn len(&self) -> (r: usize)
        ensures
            r == self@.len(),
    {
        self.tags.len()
    }

    /// The text that carries the variant `variant` across the boundary.
    pub fn encode(&self, variant: usize) -> (r: String)
        requires
            variant < self@.len(),
        ensures
            r@ == encode_spec(self@[variant as int]),
    {
        let mut r = String::from_str("{\"type\":\"");
        r.append(self.tags[variant].as_str());
        r.append("\"}");
        proof {
            reveal_strlit("{\"type\":\"");
            reveal_strlit("\"}");
            assert(r@ =~= encode_spec(self@[variant as int]));
        }
        r
    }

    /// The variant that the text `raw` delivers, if any. Text that is not a
    /// well-formed message, or that names no declared variant, delivers
    /// nothing.
    pub fn parse(&self, raw: &str) -> (r: Option<usize>)
        ensures
            match r {
                Some(k) => parse_spec(raw@, self@) == Some(k as nat),
                None => parse_spec(raw@, self@) is None,
            },
    {
        let (e, f) = match tag_bounds(raw) {
            Some(b) => b,
            None => return None,
        };
        let ghost t = raw@.subrange(e as int, f as int);
        assert(parse_spec(raw@, self@) == find_tag(self@, t, 0));
        let mut i: usize = 0;
        while i < self.tags.len()
            invariant
                0 <= i <= self@.len(),
                self@.len() == self.tags@.len(),
                e <= f <= raw@.len(),
                t == raw@.subrange(e as int, f as int),
                parse_spec(raw@, self@) == find_tag(self@, t, i as nat),
            decreases self.tags.len() - i,
        {
            assert(self@[i as int] == self.tags@[i as int]@);
            if spells(raw, e, f, &self.tags[i]) {
                assert(find_tag(self@, t, i as nat) == Some(i as nat));
                return Some(i);
            }
            i = i + 1;
        }
        assert(find_tag(self@, t, i as nat) is None);
        None
    }
}

} // verus!
