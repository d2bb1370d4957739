use vstd::prelude::*;

use crate::error::DIDError;
use crate::text::{chars_of, find_char, segment_is, substring};

verus! {

broadcast use vstd::array::group_array_axioms;

/// The Hedera network a DID is anchored on.
#[derive(Clone, Copy, Debug, PartialEq, Eq, Structural)]
pub enum Network {
    Mainnet,
    Testnet,
    Previewnet,
    Local,
}

/// The name of a network as it appears in a DID.
pub open spec fn network_text(n: Network) -> Seq<char> {
    match n {
        Network::Mainnet => seq!['m', 'a', 'i', 'n', 'n', 'e', 't'],
        Network::Testnet => seq!['t', 'e', 's', 't', 'n', 'e', 't'],
        Network::Previewnet => seq!['p', 'r', 'e', 'v', 'i', 'e', 'w', 'n', 'e', 't'],
        Network::Local => seq!['l', 'o', 'c', 'a', 'l'],
    }
}

/// The fixed head of every `did:hedera` identifier: `did:hedera:`.
pub open spec fn did_prefix() -> Seq<char> {
    seq!['d', 'i', 'd', ':', 'h', 'e', 'd', 'e', 'r', 'a', ':']
}

/// A character that may stand in the key part of an identifier: an ASCII
/// letter or digit. (Keys are base58 or multibase text in practice; the
/// identifier grammar itself only asks for letters and digits.)
pub open spec fn is_key_char(c: char) -> bool {
    ||| ('0' <= c && c <= '9')
    ||| ('A' <= c && c <= 'Z')
    ||| ('a' <= c && c <= 'z')
}

/// A well-formed key part: non-empty, made of letters and digits.
pub open spec fn is_key_text(s: Seq<char>) -> bool {
    &&& s.len() > 0
    &&& forall|i: int| 0 <= i < s.len() ==> is_key_char(#[trigger] s[i])
}

/// A non-empty run of decimal digits.
pub open spec fn all_digits(s: Seq<char>) -> bool {
    &&& s.len() > 0
    &&& forall|i: int| 0 <= i < s.len() ==> '0' <= #[trigger] s[i] && s[i] <= '9'
}

/// A Hedera entity id `shard.realm.num`, each part a non-empty run of digits.
pub open spec fn is_entity_id(s: Seq<char>) -> bool {
    exists|i: int, j: int|
        #![trigger s[i], s[j]]
        0 < i && i < j && j < s.len() && s[i] == '.' && s[j] == '.'
            && all_digits(s.subrange(0, i)) && all_digits(s.subrange(i + 1, j))
            && all_digits(s.subrange(j + 1, s.len() as int))
}

/// The abstract content of a `did:hedera` identifier.
pub struct DidView {
    pub network: Network,
    pub key: Seq<char>,
    pub topic: Seq<char>,
}

/// A well-formed identifier: a well-formed key and an entity-id topic.
pub open spec fn valid_did(d: DidView) -> bool {
    is_key_text(d.key) && is_entity_id(d.topic)
}

/// The text of an identifier: `did:hedera:<network>:<key>_<topic>`.
pub open spec fn did_text(d: DidView) -> Seq<char> {
    did_prefix() + network_text(d.network) + seq![':'] + d.key + seq!['_'] + d.topic
}

/// A `did:hedera` identifier.
#[derive(Debug)]
pub struct HederaDid {
    pub network: Network,
    pub public_key_base58: String,
    pub topic_id: String,
}

impl View for HederaDid {
    type V = DidView;

    open spec fn view(&self) -> DidView {
        DidView { network: self.network, key: self.public_key_base58@, topic: self.topic_id@ }
    }
}

/// Whether `v[from..to]` is a non-empty run of decimal digits.
fn digits_in(v: &Vec<char>, from: usize, to: usize) -> (b: bool)
    requires
        from <= to <= v@.len(),
    ensures
        b == all_digits(v@.subrange(from as int, to as int)),
{
    if from == to {
        return false;
    }
    let mut i = from;
    while i < to
        invariant
            from <= i <= to <= v@.len(),
            forall|k: int| from <= k < i ==> '0' <= #[trigger] v@[k] && v@[k] <= '9',
        decreases to - i,
    {
        let c = v[i];
        if !('0' <= c && c <= '9') {
            assert(v@.subrange(from as int, to as int)[i - from] == c);
            return false;
        }
        i = i + 1;
    }
    assert forall|k: int| 0 <= k < to - from implies '0' <= #[trigger] v@.subrange(
        from as int,
        to as int,
    )[k] && v@.subrange(from as int, to as int)[k] <= '9' by {
        assert(v@.subrange(from as int, to as int)[k] == v@[from + k]);
    }
    true
}

/// Whether `v[from..to]` is a well-formed key part.
fn key_in(v: &Vec<char>, from: usize, to: usize) -> (b: bool)
    requires
        from <= to <= v@.len(),
    ensures
        b == is_key_text(v@.subrange(from as int, to as int)),
{
    if from == to {
        return false;
    }
    let mut i = from;
    while i < to
        invariant
            from <= i <= to <= v@.len(),
            forall|k: int| from <= k < i ==> is_key_char(#[trigger] v@[k]),
        decreases to - i,
    {
        let c = v[i];
        let ok = ('0' <= c && c <= '9') || ('A' <= c && c <= 'Z') || ('a' <= c && c <= 'z');
        if !ok {
            assert(v@.subrange(from as int, to as int)[i - from] == c);
            return false;
        }
        i = i + 1;
    }
    assert forall|k: int| 0 <= k < to - from implies is_key_char(
        #[trigger] v@.subrange(from as int, to as int)[k],
    ) by {
        assert(v@.subrange(from as int, to as int)[k] == v@[from + k]);
    }
    true
}

/// Whether `v[from..to]` is a Hedera entity id `shard.realm.num`.
fn entity_id_in(v: &Vec<char>, from: usize, to: usize) -> (b: bool)
    requires
        from <= to <= v@.len(),
    ensures
        b == is_entity_id(v@.subrange(from as int, to as int)),
{
    let ghost t = v@.subrange(from as int, to as int);
    let i = find_char(v, from, to, '.');
    let j = if i < to { find_char(v, i + 1, to, '.') } else { to };
    let ok = i < to && j < to && i > from && digits_in(v, from, i) && j > i + 1
        && digits_in(v, i + 1, j) && digits_in(v, j + 1, to);
    proof {
        let a = i - from;
        let c = j - from;
        if ok {
            assert(t.subrange(0, a) =~= v@.subrange(from as int, i as int));
            assert(t.subrange(a + 1, c) =~= v@.subrange(i + 1, j as int));
            assert(t.subrange(c + 1, t.len() as int) =~= v@.subrange(j + 1, to as int));
            assert(t[a] == '.' && t[c] == '.');
        } else {
            assert forall|x: int, y: int|
                0 < x && x < y && y < t.len() && t[x] == '.' && t[y] == '.' && all_digits(
                    t.subrange(0, x),
                ) && all_digits(t.subrange(x + 1, y)) implies !all_digits(
                t.subrange(y + 1, t.len() as int),
            ) by {
                // the dots at x and y are the first two dots of the range
                assert forall|k: int| 0 <= k < x implies t[k] != '.' by {
                    assert(t.subrange(0, x)[k] == t[k]);
                }
                assert forall|k: int| x < k < y implies t[k] != '.' by {
                    assert(t.subrange(x + 1, y)[k - x - 1] == t[k]);
                }
                assert(t[x] == v@[from + x]);
                if i < from + x {
                    assert(t[i - from] == v@[i as int]);
                } else if i > from + x {
                }
                assert(i == from + x);
                assert(t[y] == v@[from + y]);
                if j < from + y {
                    assert(t[j - from] == v@[j as int]);
                } else if j > from + y {
                }
                assert(j == from + y);
                assert(t.subrange(0, x) =~= v@.subrange(from as int, i as int));
                assert(t.subrange(x + 1, y) =~= v@.subrange(i + 1, j as int));
                assert(t.subrange(y + 1, t.len() as int) =~= v@.subrange(j + 1, to as int));
            }
        }
    }
    ok
}

/// The network whose name is `v[from..to]`, if any.
fn network_in(v: &Vec<char>, from: usize, to: usize) -> (r: Option<Network>)
    requires
        from <= to <= v@.len(),
    ensures
        forall|n: Network| (r == Some(n)) == (v@.subrange(from as int, to as int) == network_text(n)),
{
    let mainnet: [char; 7] = ['m', 'a', 'i', 'n', 'n', 'e', 't'];
    let testnet: [char; 7] = ['t', 'e', 's', 't', 'n', 'e', 't'];
    let previewnet: [char; 10] = ['p', 'r', 'e', 'v', 'i', 'e', 'w', 'n', 'e', 't'];
    let local: [char; 5] = ['l', 'o', 'c', 'a', 'l'];
    assert(mainnet@ =~= network_text(Network::Mainnet));
    assert(testnet@ =~= network_text(Network::Testnet));
    assert(previewnet@ =~= network_text(Network::Previewnet));
    assert(local@ =~= network_text(Network::Local));
    if segment_is(v, from, to, &mainnet) {
        Some(Network::Mainnet)
    } else if segment_is(v, from, to, &testnet) {
        Some(Network::Testnet)
    } else if segment_is(v, from, to, &previewnet) {
        Some(Network::Previewnet)
    } else if segment_is(v, from, to, &local) {
        Some(Network::Local)
    } else {
        None
    }
}

/// Network names are made of lower-case ASCII letters.
pub proof fn lemma_network_text_letters(n: Network)
    ensures
        forall|i: int|
            0 <= i < network_text(n).len() ==> 'a' <= #[trigger] network_text(n)[i] && network_text(
                n,
            )[i] <= 'z',
{
    let t = network_text(n);
    assert forall|i: int| 0 <= i < t.len() implies 'a' <= #[trigger] t[i] && t[i] <= 'z' by {
        match n {
            Network::Mainnet => {
                assert(t =~= seq!['m', 'a', 'i', 'n', 'n', 'e', 't']);
            },
            Network::Testnet => {
                assert(t =~= seq!['t', 'e', 's', 't', 'n', 'e', 't']);
            },
            Network::Previewnet => {
                assert(t =~= seq!['p', 'r', 'e', 'v', 'i', 'e', 'w', 'n', 'e', 't']);
            },
            Network::Local => {
                assert(t =~= seq!['l', 'o', 'c', 'a', 'l']);
            },
        }
    }
}

/// Where each part of an identifier's text stands, given a well-formed key
/// (the topic part may be anything).
pub proof fn lemma_did_text_layout(d: DidView)
    requires
        is_key_text(d.key),
    ensures
        ({
            let t = did_text(d);
            let l = network_text(d.network).len() as int;
            let k = d.key.len() as int;
            &&& t.len() == 13 + l + k + d.topic.len()
            &&& t.subrange(0, 11) == did_prefix()
            &&& t.subrange(11, 11 + l) == network_text(d.network)
            &&& t[11 + l] == ':'
            &&& (forall|i: int| 11 <= i < 11 + l ==> 'a' <= #[trigger] t[i] && t[i] <= 'z')
            &&& t.subrange(12 + l, 12 + l + k) == d.key
            &&& t[12 + l + k] == '_'
            &&& (forall|i: int| 12 + l <= i < 12 + l + k ==> is_key_char(#[trigger] t[i]))
            &&& t.subrange(13 + l + k, t.len() as int) == d.topic
        }),
{
    let t = did_text(d);
    let n = network_text(d.network);
    let l = n.len() as int;
    let k = d.key.len() as int;
    lemma_network_text_letters(d.network);
    assert(t.subrange(0, 11) =~= did_prefix());
    assert(t.subrange(11, 11 + l) =~= n);
    assert(t.subrange(12 + l, 12 + l + k) =~= d.key);
    assert(t.subrange(13 + l + k, t.len() as int) =~= d.topic);
    assert forall|i: int| 11 <= i < 11 + l implies 'a' <= #[trigger] t[i] && t[i] <= 'z' by {
        assert(t[i] == n[i - 11]);
    }
    assert forall|i: int| 12 + l <= i < 12 + l + k implies is_key_char(#[trigger] t[i]) by {
        assert(t[i] == d.key[i - 12 - l]);
    }
}

/// `s` reads `did:hedera:<network>:<key>_<rest>` with a known network and a
/// well-formed key; `<rest>`, where the topic id stands, may be anything.
pub open spec fn did_shaped(s: Seq<char>) -> bool {
    exists|d: DidView| is_key_text(d.key) && did_text(d) == s
}

/// The parts of a text that `did_shaped` accepts (there is only one way to
/// read it: see `lemma_did_text_injective`).
pub open spec fn did_shape(s: Seq<char>) -> DidView {
    choose|d: DidView| is_key_text(d.key) && did_text(d) == s
}

/// The detail of the error for a topic id that is not `shard.realm.num`.
pub open spec fn invalid_topic_message(topic: Seq<char>) -> Seq<char> {
    "invalid topic id: "@ + topic
}

/// Parses a `did:hedera:<network>:<key>_<shard.realm.num>` identifier.
///
/// A text of the right shape whose topic id is malformed is refused with
/// `InvalidArgument`; any other malformed text with `InvalidDid`.
#[verifier::rlimit(50)]
pub fn parse_did(s: &str) -> (r: Result<HederaDid, DIDError>)
    ensures
        match r {
            Ok(d) => valid_did(d@) && did_text(d@) == s@,
            Err(e) => {
                &&& forall|d: DidView| valid_did(d) ==> did_text(d) != s@
                &&& if did_shaped(s@) {
                    e is InvalidArgument && e.message() == invalid_topic_message(
                        did_shape(s@).topic,
                    )
                } else {
                    e is InvalidDid && e.message() == s@
                }
            },
        },
{
    let v = chars_of(s);
    let n = v.len();
    let prefix: [char; 11] = ['d', 'i', 'd', ':', 'h', 'e', 'd', 'e', 'r', 'a', ':'];
    assert(prefix@ =~= did_prefix());
    let ghost sv = s@;
    if n < 11 || !segment_is(&v, 0, 11, &prefix) {
        proof {
            assert forall|d: DidView| is_key_text(d.key) implies did_text(d) != sv by {
                if did_text(d) == sv {
                    lemma_did_text_layout(d);
                }
            }
        }
        return Err(DIDError::InvalidDid(s.to_owned()));
    }
    let k = find_char(&v, 11, n, ':');
    let net = if k < n { network_in(&v, 11, k) } else { None };
    if net.is_none() {
        proof {
            assert forall|d: DidView| is_key_text(d.key) implies did_text(d) != sv by {
                if did_text(d) == sv {
                    lemma_did_text_layout(d);
                    let l = network_text(d.network).len() as int;
                    if k < 11 + l {
                        assert(sv[k as int] == ':');
                    } else if k > 11 + l {
                        assert(sv[11 + l] == ':');
                    }
                    assert(k == 11 + l);
                }
            }
        }
        return Err(DIDError::InvalidDid(s.to_owned()));
    }
    let network = net.unwrap();
    let u = find_char(&v, k + 1, n, '_');
    let key_ok = u < n && key_in(&v, k + 1, u);
    if !key_ok {
        proof {
            assert forall|d: DidView| is_key_text(d.key) implies did_text(d) != sv by {
                if did_text(d) == sv {
                    lemma_did_text_layout(d);
                    let l = network_text(d.network).len() as int;
                    if k < 11 + l {
                        assert(sv[k as int] == ':');
                    } else if k > 11 + l {
                        assert(sv[11 + l] == ':');
                    }
                    assert(k == 11 + l);
                    assert(network == d.network);
                    let kk = d.key.len() as int;
                    if u < 12 + l + kk {
                        assert(is_key_char(sv[u as int]));
                    } else if u > 12 + l + kk {
                        assert(sv[12 + l + kk] == '_');
                    }
                    assert(u == 12 + l + kk);
                }
            }
        }
        return Err(DIDError::InvalidDid(s.to_owned()));
    }
    let ghost shaped = DidView {
        network,
        key: sv.subrange(k + 1, u as int),
        topic: sv.subrange(u + 1, n as int),
    };
    proof {
        assert(sv =~= did_text(shaped));
        assert(is_key_text(shaped.key));
    }
    if !entity_id_in(&v, u + 1, n) {
        let topic = substring(s, u + 1, n);
        let mut msg = "invalid topic id: ".to_owned();
        msg.append(topic.as_str());
        proof {
            let c = did_shape(sv);
            assert(is_key_text(c.key) && did_text(c) == sv);
            lemma_did_text_injective(c, shaped);
            assert forall|d: DidView| valid_did(d) implies did_text(d) != sv by {
                if did_text(d) == sv {
                    lemma_did_text_injective(d, shaped);
                }
            }
        }
        return Err(DIDError::InvalidArgument(msg));
    }
    let key = substring(s, k + 1, u);
    let topic = substring(s, u + 1, n);
    let d = HederaDid { network, public_key_base58: key, topic_id: topic };
    proof {
        assert(sv =~= did_text(d@));
    }
    Ok(d)
}

/// Distinct identifiers with well-formed keys have distinct texts, so the
/// text of an identifier determines it and `parse_did` gives back what
/// `to_did_string` wrote.
pub proof fn lemma_did_text_injective(d1: DidView, d2: DidView)
    requires
        is_key_text(d1.key),
        is_key_text(d2.key),
        did_text(d1) == did_text(d2),
    ensures
        d1 == d2,
{
    let t = did_text(d1);
    lemma_did_text_layout(d1);
    lemma_did_text_layout(d2);
    let l1 = network_text(d1.network).len() as int;
    let l2 = network_text(d2.network).len() as int;
    if l1 < l2 {
        assert(t[11 + l1] == ':');
    } else if l1 > l2 {
        assert(t[11 + l2] == ':');
    }
    assert(network_text(d1.network) == network_text(d2.network));
    assert(d1.network == d2.network) by {
        if d1.network != d2.network {
            assert(network_text(d1.network)[0] != network_text(d2.network)[0]
                || network_text(d1.network)[1] != network_text(d2.network)[1]
                || network_text(d1.network).len() != network_text(d2.network).len());
        }
    }
    let k1 = d1.key.len() as int;
    let k2 = d2.key.len() as int;
    if k1 < k2 {
        assert(t[12 + l1 + k1] == '_');
    } else if k1 > k2 {
        assert(t[12 + l1 + k2] == '_');
    }
}

impl Network {
    /// The name of the network as it appears in a DID.
    pub fn as_str(&self) -> (s: &'static str)
        ensures
            s@ == network_text(*self),
    {
        match self {
            Network::Mainnet => {
                proof {
                    reveal_strlit("mainnet");
                }
                "mainnet"
            },
            Network::Testnet => {
                proof {
                    reveal_strlit("testnet");
                }
                "testnet"
            },
            Network::Previewnet => {
                proof {
                    reveal_strlit("previewnet");
                }
                "previewnet"
            },
            Network::Local => {
                proof {
                    reveal_strlit("local");
                }
                "local"
            },
        }
    }
}

impl Clone for HederaDid {
    fn clone(&self) -> (r: Self)
        ensures
            r@ == self@,
    {
        HederaDid {
            network: self.network,
            public_key_base58: self.public_key_base58.clone(),
            topic_id: self.topic_id.clone(),
        }
    }
}

impl HederaDid {
    /// Builds an identifier from its parts; the parts are taken as given.
    pub fn new(network: Network, public_key_base58: String, topic_id: String) -> (d: HederaDid)
        ensures
            d.network == network,
            d.public_key_base58@ == public_key_base58@,
            d.topic_id@ == topic_id@,
    {
        HederaDid { network, public_key_base58, topic_id }
    }

    /// Whether the key is made of letters and digits and the topic is a
    /// `shard.realm.num` entity id.
    pub fn is_valid(&self) -> (b: bool)
        ensures
            b == valid_did(self@),
    {
        let kv = chars_of(self.public_key_base58.as_str());
        let tv = chars_of(self.topic_id.as_str());
        assert(kv@.subrange(0, kv@.len() as int) =~= kv@);
        assert(tv@.subrange(0, tv@.len() as int) =~= tv@);
        key_in(&kv, 0, kv.len()) && entity_id_in(&tv, 0, tv.len())
    }

    /// The text of the identifier: `did:hedera:<network>:<key>_<topic>`.
    pub fn to_did_string(&self) -> (s: String)
        ensures
            s@ == did_text(self@),
    {
        let mut s = String::new();
        proof {
            reveal_strlit("did:hedera:");
            reveal_strlit(":");
            reveal_strlit("_");
        }
        s.append("did:hedera:");
        s.append(self.network.as_str());
        s.append(":");
        s.append(self.public_key_base58.as_str());
        s.append("_");
        s.append(self.topic_id.as_str());
        assert(s@ =~= did_text(self@));
        s
    }
}

/// The text of a well-formed identifier holds none of the DID URL
/// delimiters `/`, `?` and `#`.
pub proof fn lemma_did_text_no_url_delimiters(d: DidView)
    requires
        valid_did(d),
    ensures
        forall|i: int|
            0 <= i < did_text(d).len() ==> #[trigger] did_text(d)[i] != '/' && did_text(d)[i] != '?'
                && did_text(d)[i] != '#',
{
    let t = did_text(d);
    lemma_did_text_layout(d);
    let l = network_text(d.network).len() as int;
    let k = d.key.len() as int;
    let (a, b) = choose|a: int, b: int|
        #![trigger d.topic[a], d.topic[b]]
        0 < a && a < b && b < d.topic.len() && d.topic[a] == '.' && d.topic[b] == '.'
            && all_digits(d.topic.subrange(0, a)) && all_digits(d.topic.subrange(a + 1, b))
            && all_digits(d.topic.subrange(b + 1, d.topic.len() as int));
    assert forall|i: int| 0 <= i < t.len() implies #[trigger] t[i] != '/' && t[i] != '?' && t[i] != '#' by {
        if i < 11 {
            assert(t.subrange(0, 11)[i] == t[i]);
        } else if i < 11 + l {
        } else if i == 11 + l {
        } else if i < 12 + l + k {
        } else if i == 12 + l + k {
        } else {
            let j = i - 13 - l - k;
            assert(t.subrange(13 + l + k, t.len() as int)[j] == t[i]);
            if j < a {
                assert(d.topic.subrange(0, a)[j] == d.topic[j]);
            } else if j == a {
            } else if j < b {
                assert(d.topic.subrange(a + 1, b)[j - a - 1] == d.topic[j]);
            } else if j == b {
            } else {
                assert(d.topic.subrange(b + 1, d.topic.len() as int)[j - b - 1] == d.topic[j]);
            }
        }
    }
}

} // verus!
