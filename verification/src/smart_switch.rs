//! Remembers the input mode of each application, by its bundle identifier.

use vstd::prelude::*;
use vstd::slice::slice_subrange;
use vstd::utf8::{decode_utf8, encode_utf8, encode_utf8_decode_utf8, encode_utf8_valid_utf8, valid_utf8};
use crate::sorted_map::{seq_lt, SortedMap};
use crate::text::{str_bytes, str_eq, str_from_utf8, str_to_chars};

verus! {

broadcast use {encode_utf8_decode_utf8, encode_utf8_valid_utf8};

/// The code points of a character sequence, the key it is stored under.
pub open spec fn spec_codes(s: Seq<char>) -> Seq<u32> {
    s.map_values(|c: char| c as u32)
}

/// The code points of a string.
pub fn str_codes(s: &str) -> (r: Vec<u32>)
    ensures r@ == spec_codes(s@),
{
    let chars = str_to_chars(s);
    let mut r: Vec<u32> = Vec::new();
    let mut i: usize = 0;
    while i < chars.len()
        invariant
            i <= chars.len(),
            chars@ == s@,
            r@ == spec_codes(s@.subrange(0, i as int)),
        decreases chars.len() - i,
    {
        proof {
            assert(spec_codes(s@.subrange(0, i + 1)) =~= spec_codes(s@.subrange(0, i as int)).push(s@[i as int] as u32));
        }
        r.push(chars[i] as u32);
        i = i + 1;
    }
    proof {
        assert(s@.subrange(0, s@.len() as int) =~= s@);
    }
    r
}

/// Different strings have different code sequences.
pub proof fn lemma_codes_injective(a: Seq<char>, b: Seq<char>)
    requires spec_codes(a) == spec_codes(b),
    ensures a == b,
{
    assert(spec_codes(a).len() == spec_codes(b).len());
    assert(spec_codes(a).len() == a.len());
    assert(spec_codes(b).len() == b.len());
    assert forall|i: int| 0 <= i < a.len() implies a[i] == b[i] by {
        assert(spec_codes(a)[i] == spec_codes(b)[i]);
        assert(spec_codes(a)[i] == a[i] as u32);
        assert(i < b.len());
        assert(spec_codes(b)[i] == b[i] as u32);
        let u = a[i] as u32;
        assert(u == b[i] as u32);
        vstd::utf8::char_u32_cast(a[i], u);
        vstd::utf8::char_u32_cast(b[i], u);
    }
    assert(a =~= b);
}

/// One remembered application: its bundle identifier and its input mode.
pub struct SwitchEntry {
    id: String,
    value: i8,
}

/// Per-application input mode memory, with a one-entry cache of the last application asked.
pub struct SmartSwitchKey {
    data: SortedMap<SwitchEntry>,
    cache_key: Option<String>,
    cache_data: i8,
}

impl SmartSwitchKey {
    /// Each entry is stored under the code points of its own identifier.
    pub closed spec fn wf(&self) -> bool {
        &&& self.data.wf()
        &&& forall|i: int| 0 <= i < self.data.spec_len() ==>
            #[trigger] self.data.spec_keys()[i] == spec_codes(self.data.spec_vals()[i].id@)
    }

    /// The input mode remembered for each application identifier.
    pub closed spec fn view(&self) -> Map<Seq<char>, i8> {
        Map::new(
            |s: Seq<char>| self.data@.contains_key(spec_codes(s)),
            |s: Seq<char>| self.data@[spec_codes(s)].value,
        )
    }

    /// The identifier last asked for or set, if any.
    pub closed spec fn spec_cache_key(&self) -> Option<Seq<char>> {
        match self.cache_key {
            Some(k) => Some(k@),
            None => None,
        }
    }

    /// The input mode cached with it.
    pub closed spec fn spec_cache_data(&self) -> i8 {
        self.cache_data
    }

    /// Identifiers and input modes, in increasing order of the identifiers.
    pub closed spec fn spec_entries(&self) -> Seq<(Seq<char>, i8)> {
        self.data.spec_vals().map_values(|e: SwitchEntry| (e.id@, e.value))
    }

    /// The listed applications are the remembered ones, each once, in
    /// increasing order of the code points of their identifiers.
    pub proof fn lemma_entries_view(&self)
        requires self.wf(),
        ensures
            forall|i: int| 0 <= i < self.spec_entries().len() ==> {
                let e = #[trigger] self.spec_entries()[i];
                self@.contains_key(e.0) && self@[e.0] == e.1
            },
            forall|i: int, j: int| 0 <= i < j < self.spec_entries().len()
                ==> seq_lt(spec_codes(#[trigger] self.spec_entries()[i].0), spec_codes(#[trigger] self.spec_entries()[j].0)),
    {
        self.data.lemma_lens();
        self.data.lemma_sorted_len();
        let es = self.spec_entries();
        assert forall|i: int| 0 <= i < es.len() implies {
            let e = #[trigger] es[i];
            self@.contains_key(e.0) && self@[e.0] == e.1
        } by {
            self.lemma_view_at(i);
        }
        assert forall|i: int, j: int| 0 <= i < j < es.len()
            implies seq_lt(spec_codes(#[trigger] es[i].0), spec_codes(#[trigger] es[j].0)) by {
            assert(self.data.spec_keys()[i] == spec_codes(self.data.spec_vals()[i].id@));
            assert(self.data.spec_keys()[j] == spec_codes(self.data.spec_vals()[j].id@));
        }
    }

    proof fn lemma_view_at(&self, i: int)
        requires self.wf(), 0 <= i < self.data.spec_len(),
        ensures
            self@.contains_key(self.data.spec_vals()[i].id@),
            self@[self.data.spec_vals()[i].id@] == self.data.spec_vals()[i].value,
    {
        self.data.lemma_view_at(i);
    }

    /// A controller that remembers nothing.
    pub fn new() -> (r: Self)
        ensures
            r.wf(),
            r@ == Map::<Seq<char>, i8>::empty(),
            r.spec_cache_key() is None,
            r.spec_cache_data() == 0,
    {
        let r = SmartSwitchKey { data: SortedMap::new(), cache_key: None, cache_data: 0 };
        proof {
            assert(r@ =~= Map::<Seq<char>, i8>::empty());
        }
        r
    }

    /// Forgets every application and the cache.
    pub fn clear(&mut self)
        ensures
            final(self).wf(),
            final(self)@ == Map::<Seq<char>, i8>::empty(),
            final(self).spec_cache_key() is None,
            final(self).spec_cache_data() == 0,
    {
        self.data.clear();
        self.cache_key = None;
        self.cache_data = 0;
        proof {
            assert(self@ =~= Map::<Seq<char>, i8>::empty());
        }
    }

    /// Stores `value` for `id`.
    fn store(&mut self, id: &str, value: i8)
        requires old(self).wf(),
        ensures
            final(self).wf(),
            final(self)@ == old(self)@.insert(id@, value),
            final(self).spec_cache_key() == old(self).spec_cache_key(),
            final(self).spec_cache_data() == old(self).spec_cache_data(),
    {
        let key = str_codes(id);
        let entry = SwitchEntry { id: id.to_owned(), value };
        self.data.insert(key, entry);
        proof {
            let ks = self.data.spec_keys();
            let vs = self.data.spec_vals();
            assert forall|i: int| 0 <= i < self.data.spec_len() implies
                #[trigger] self.data.spec_keys()[i] == spec_codes(self.data.spec_vals()[i].id@) by {
                self.data.lemma_view_at(i);
                if ks[i] == spec_codes(id@) {
                } else {
                    let j = old(self).data.spec_keys().index_of(ks[i]);
                    old(self).data.lemma_view_at(j);
                }
            }
            assert forall|s: Seq<char>| #[trigger] self@.contains_key(s) == old(self)@.insert(id@, value).contains_key(s) by {
                if spec_codes(s) == spec_codes(id@) {
                    lemma_codes_injective(s, id@);
                }
            }
            assert forall|s: Seq<char>| self@.contains_key(s) implies #[trigger] self@[s] == old(self)@.insert(id@, value)[s] by {
                if spec_codes(s) == spec_codes(id@) {
                    lemma_codes_injective(s, id@);
                }
            }
            assert(self@ =~= old(self)@.insert(id@, value));
        }
    }

    /// The input mode remembered for `id`, if any.
    fn lookup(&self, id: &str) -> (r: Option<i8>)
        requires self.wf(),
        ensures
            r is Some <==> self@.contains_key(id@),
            r matches Some(v) ==> v == self@[id@],
    {
        let key = str_codes(id);
        match self.data.get(&key) {
            Some(e) => Some(e.value),
            None => None,
        }
    }

    /// The input mode for application `bundle_id`: the cached one when it was
    /// the last asked, else the remembered one; an application seen for the
    /// first time is remembered with `current_input_method`, and -1 is returned.
    pub fn get_app_input_method_status(&mut self, bundle_id: &str, current_input_method: i8) -> (r: i8)
        requires old(self).wf(),
        ensures
            final(self).wf(),
            old(self).spec_cache_key() == Some(bundle_id@) ==> {
                &&& r == old(self).spec_cache_data()
                &&& final(self)@ == old(self)@
                &&& final(self).spec_cache_key() == old(self).spec_cache_key()
                &&& final(self).spec_cache_data() == old(self).spec_cache_data()
            },
            old(self).spec_cache_key() != Some(bundle_id@) && old(self)@.contains_key(bundle_id@) ==> {
                &&& r == old(self)@[bundle_id@]
                &&& final(self)@ == old(self)@
                &&& final(self).spec_cache_key() == Some(bundle_id@)
                &&& final(self).spec_cache_data() == r
            },
            old(self).spec_cache_key() != Some(bundle_id@) && !old(self)@.contains_key(bundle_id@) ==> {
                &&& r == -1
                &&& final(self)@ == old(self)@.insert(bundle_id@, current_input_method)
                &&& final(self).spec_cache_key() == Some(bundle_id@)
                &&& final(self).spec_cache_data() == current_input_method
            },
    {
        match &self.cache_key {
            Some(k) => {
                if str_eq(k.as_str(), bundle_id) {
                    return self.cache_data;
                }
            },
            None => {},
        }
        match self.lookup(bundle_id) {
            Some(val) => {
                self.cache_key = Some(bundle_id.to_owned());
                self.cache_data = val;
                val
            },
            None => {
                self.cache_key = Some(bundle_id.to_owned());
                self.cache_data = current_input_method;
                self.store(bundle_id, current_input_method);
                -1
            },
        }
    }

    /// Remembers `language` for application `bundle_id` and caches it.
    pub fn set_app_input_method_status(&mut self, bundle_id: &str, language: i8)
        requires old(self).wf(),
        ensures
            final(self).wf(),
            final(self)@ == old(self)@.insert(bundle_id@, language),
            final(self).spec_cache_key() == Some(bundle_id@),
            final(self).spec_cache_data() == language,
    {
        self.store(bundle_id, language);
        self.cache_key = Some(bundle_id.to_owned());
        self.cache_data = language;
    }
}

/// The saved bytes of one application: the length of its identifier's UTF-8
/// bytes (one byte), those bytes, and the input mode (one byte).
pub open spec fn spec_switch_entry_bytes(id: Seq<char>, value: i8) -> Seq<u8> {
    seq![encode_utf8(id).len() as u8] + encode_utf8(id) + seq![value as u8]
}

/// The saved bytes of a list of applications, one after the other.
pub open spec fn spec_switch_entries_bytes(es: Seq<(Seq<char>, i8)>) -> Seq<u8>
    decreases es.len(),
{
    if es.len() == 0 {
        Seq::empty()
    } else {
        spec_switch_entries_bytes(es.drop_last()) + spec_switch_entry_bytes(es.last().0, es.last().1)
    }
}

/// The saved bytes: the number of applications (two bytes, least significant
/// first), then the applications.
pub open spec fn spec_switch_bytes(es: Seq<(Seq<char>, i8)>) -> Seq<u8> {
    seq![(es.len() % 256) as u8, ((es.len() / 256) % 256) as u8] + spec_switch_entries_bytes(es)
}

/// The applications read from `bytes` at `cursor`, at most `count` of them;
/// reading stops at the first entry that is cut short or not UTF-8.
pub open spec fn spec_parse_switch_entries(bytes: Seq<u8>, cursor: int, count: nat) -> Seq<(Seq<char>, i8)>
    decreases count,
{
    if count == 0 || cursor < 0 || cursor >= bytes.len() {
        Seq::empty()
    } else {
        let start = cursor + 1;
        let end = start + bytes[cursor] as int;
        if end > bytes.len() || !valid_utf8(bytes.subrange(start, end)) || end >= bytes.len() {
            Seq::empty()
        } else {
            seq![(decode_utf8(bytes.subrange(start, end)), bytes[end] as i8)]
                + spec_parse_switch_entries(bytes, end + 1, (count - 1) as nat)
        }
    }
}

/// The applications read from saved bytes.
pub open spec fn spec_parse_switch(bytes: Seq<u8>) -> Seq<(Seq<char>, i8)> {
    if bytes.len() < 2 {
        Seq::empty()
    } else {
        spec_parse_switch_entries(bytes, 2, (bytes[0] + bytes[1] * 256) as nat)
    }
}

/// `m` with the applications of `es` stored one after the other.
pub open spec fn spec_insert_all(m: Map<Seq<char>, i8>, es: Seq<(Seq<char>, i8)>) -> Map<Seq<char>, i8>
    decreases es.len(),
{
    if es.len() == 0 {
        m
    } else {
        spec_insert_all(m.insert(es[0].0, es[0].1), es.drop_first())
    }
}

impl SmartSwitchKey {
    /// The bytes that save the remembered applications, in increasing order of their identifiers.
    pub fn get_binary_save_data(&self) -> (r: Vec<u8>)
        requires self.wf(),
        ensures r@ == spec_switch_bytes(self.spec_entries()),
    {
        let n = self.data.len();
        let mut out: Vec<u8> = Vec::new();
        out.push((n % 256) as u8);
        out.push(((n / 256) % 256) as u8);
        let ghost es = self.spec_entries();
        proof {
            self.data.lemma_lens();
        }
        let mut i: usize = 0;
        while i < n
            invariant
                i <= n,
                n == self.data.spec_len(),
                self.wf(),
                es == self.spec_entries(),
                es.len() == n,
                out@ == seq![(n % 256) as u8, ((n / 256) % 256) as u8] + spec_switch_entries_bytes(es.take(i as int)),
            decreases n - i,
        {
            let e = self.data.val_at(i);
            let b = str_bytes(e.id.as_str());
            let ghost before = out@;
            out.push(b.len() as u8);
            let mut j: usize = 0;
            while j < b.len()
                invariant
                    j <= b.len(),
                    out@ == before + seq![b@.len() as u8] + b@.take(j as int),
                decreases b.len() - j,
            {
                out.push(b[j]);
                proof {
                    assert(b@.take(j + 1) =~= b@.take(j as int).push(b@[j as int]));
                }
                j = j + 1;
            }
            out.push(e.value as u8);
            proof {
                assert(b@.take(b@.len() as int) =~= b@);
                let t = es.take(i + 1);
                assert(t.drop_last() =~= es.take(i as int));
                assert(t.last() == es[i as int]);
                assert(es[i as int] == (e.id@, e.value));
                assert(out@ =~= seq![(n % 256) as u8, ((n / 256) % 256) as u8] + spec_switch_entries_bytes(t));
            }
            i = i + 1;
        }
        proof {
            assert(es.take(n as int) =~= es);
        }
        out
    }

    /// Replaces what is remembered by the applications read from `payload`
    /// (see `spec_parse_switch`); the cache is cleared.
    pub fn init_from_binary(&mut self, payload: &[u8])
        ensures
            final(self).wf(),
            final(self)@ == spec_insert_all(Map::empty(), spec_parse_switch(payload@)),
            final(self).spec_cache_key() is None,
            final(self).spec_cache_data() == 0,
    {
        self.clear();
        if payload.len() < 2 {
            return;
        }
        let count: usize = payload[0] as usize + payload[1] as usize * 256;
        let ghost all = spec_parse_switch(payload@);
        let mut cursor: usize = 2;
        let mut k: usize = 0;
        while k < count
            invariant
                k <= count,
                2 <= cursor <= payload@.len(),
                count == payload@[0] + payload@[1] * 256,
                self.wf(),
                self.spec_cache_key() is None,
                self.spec_cache_data() == 0,
                spec_insert_all(self@, spec_parse_switch_entries(payload@, cursor as int, (count - k) as nat))
                    == spec_insert_all(Map::empty(), all),
            ensures
                spec_parse_switch_entries(payload@, cursor as int, (count - k) as nat).len() == 0,
            decreases count - k,
        {
            if cursor >= payload.len() {
                break;
            }
            let id_len = payload[cursor] as usize;
            let start = cursor + 1;
            if id_len > payload.len() - start {
                break;
            }
            let end = start + id_len;
            let sub = slice_subrange(payload, start, end);
            assert(sub@ == payload@.subrange(start as int, end as int));
            let id = match str_from_utf8(sub) {
                Some(s) => s,
                None => {
                    break;
                },
            };
            if end >= payload.len() {
                break;
            }
            let val = payload[end] as i8;
            proof {
                let rest = spec_parse_switch_entries(payload@, (end + 1) as int, (count - k - 1) as nat);
                assert(spec_parse_switch_entries(payload@, cursor as int, (count - k) as nat)
                    == seq![(id@, val)] + rest);
                assert((seq![(id@, val)] + rest).drop_first() =~= rest);
            }
            self.store(id, val);
            cursor = end + 1;
            k = k + 1;
        }
    }
}

proof fn lemma_entries_bytes_front(es: Seq<(Seq<char>, i8)>)
    requires es.len() > 0,
    ensures
        spec_switch_entries_bytes(es)
            == spec_switch_entry_bytes(es[0].0, es[0].1) + spec_switch_entries_bytes(es.drop_first()),
    decreases es.len(),
{
    if es.len() == 1 {
        assert(es.drop_last() =~= Seq::<(Seq<char>, i8)>::empty());
        assert(es.drop_first() =~= Seq::<(Seq<char>, i8)>::empty());
        assert(spec_switch_entries_bytes(es) =~= spec_switch_entry_bytes(es[0].0, es[0].1));
    } else {
        let d = es.drop_last();
        lemma_entries_bytes_front(d);
        assert(d.drop_first() =~= es.drop_first().drop_last());
        assert(es.drop_first().last() == es.last());
        assert(d[0] == es[0]);
        assert(spec_switch_entries_bytes(es) =~= spec_switch_entry_bytes(es[0].0, es[0].1)
            + spec_switch_entries_bytes(es.drop_first()));
    }
}

proof fn lemma_byte_i8(v: i8)
    ensures (v as u8) as i8 == v,
{
    assert((v as u8) as i8 == v) by (bit_vector);
}

/// Every identifier of `es` has fewer than 256 UTF-8 bytes.
pub open spec fn short_ids(es: Seq<(Seq<char>, i8)>) -> bool {
    forall|i: int| 0 <= i < es.len() ==> encode_utf8(#[trigger] es[i].0).len() < 256
}

proof fn lemma_parse_entries(p: Seq<u8>, es: Seq<(Seq<char>, i8)>)
    requires short_ids(es),
    ensures spec_parse_switch_entries(p + spec_switch_entries_bytes(es), p.len() as int, es.len()) == es,
    decreases es.len(),
{
    if es.len() == 0 {
        assert(spec_parse_switch_entries(p + spec_switch_entries_bytes(es), p.len() as int, 0) =~= es);
    } else {
        let e = es[0];
        let rest = es.drop_first();
        lemma_entries_bytes_front(es);
        let eb = spec_switch_entry_bytes(e.0, e.1);
        let enc = encode_utf8(e.0);
        let bytes = p + spec_switch_entries_bytes(es);
        let p2 = p + eb;
        assert(bytes =~= p2 + spec_switch_entries_bytes(rest));
        let cursor = p.len() as int;
        assert(enc.len() < 256);
        assert(bytes[cursor] == enc.len() as u8);
        let start = cursor + 1;
        let end = start + enc.len();
        assert(bytes.subrange(start, end) =~= enc);
        assert(bytes[end] == e.1 as u8);
        lemma_byte_i8(e.1);
        assert forall|i: int| 0 <= i < rest.len() implies encode_utf8(#[trigger] rest[i].0).len() < 256 by {
            assert(rest[i] == es[i + 1]);
        }
        lemma_parse_entries(p2, rest);
        assert(p2.len() == end + 1);
        assert(spec_parse_switch_entries(bytes, cursor, es.len()) =~= seq![e] + rest);
        assert(seq![e] + rest =~= es);
    }
}

/// Reading back the saved bytes of `es` gives `es`, when there are fewer than
/// 65536 entries and each identifier has fewer than 256 UTF-8 bytes.
pub proof fn lemma_parse_switch_bytes(es: Seq<(Seq<char>, i8)>)
    requires
        es.len() < 65536,
        short_ids(es),
    ensures spec_parse_switch(spec_switch_bytes(es)) == es,
{
    let h = seq![(es.len() % 256) as u8, ((es.len() / 256) % 256) as u8];
    lemma_parse_entries(h, es);
    let bytes = spec_switch_bytes(es);
    assert(bytes[0] + bytes[1] * 256 == es.len());
}

/// The identifiers of `es` are all different.
pub open spec fn distinct_ids(es: Seq<(Seq<char>, i8)>) -> bool {
    forall|i: int, j: int| 0 <= i < es.len() && 0 <= j < es.len() && #[trigger] es[i].0 == #[trigger] es[j].0 ==> i == j
}

proof fn lemma_insert_all(m: Map<Seq<char>, i8>, es: Seq<(Seq<char>, i8)>, q: Seq<char>)
    requires distinct_ids(es),
    ensures
        spec_insert_all(m, es).contains_key(q) <==> (m.contains_key(q) || exists|i: int| 0 <= i < es.len() && #[trigger] es[i].0 == q),
        forall|i: int| 0 <= i < es.len() && #[trigger] es[i].0 == q ==> spec_insert_all(m, es)[q] == es[i].1,
        !(exists|i: int| 0 <= i < es.len() && #[trigger] es[i].0 == q) ==> spec_insert_all(m, es)[q] == m[q],
    decreases es.len(),
{
    if es.len() > 0 {
        let rest = es.drop_first();
        let m2 = m.insert(es[0].0, es[0].1);
        assert forall|i: int, j: int| 0 <= i < rest.len() && 0 <= j < rest.len() && #[trigger] rest[i].0 == #[trigger] rest[j].0 implies i == j by {
            assert(es[i + 1].0 == es[j + 1].0);
        }
        lemma_insert_all(m2, rest, q);
        if exists|i: int| 0 <= i < rest.len() && #[trigger] rest[i].0 == q {
            let i = choose|i: int| 0 <= i < rest.len() && #[trigger] rest[i].0 == q;
            assert(es[i + 1].0 == q);
        }
        if exists|i: int| 0 <= i < es.len() && #[trigger] es[i].0 == q {
            let i = choose|i: int| 0 <= i < es.len() && #[trigger] es[i].0 == q;
            if i > 0 {
                assert(rest[i - 1].0 == q);
            }
        }
        assert forall|i: int| 0 <= i < es.len() && #[trigger] es[i].0 == q implies spec_insert_all(m, es)[q] == es[i].1 by {
            if i > 0 {
                assert(rest[i - 1].0 == q);
            } else {
                if exists|j: int| 0 <= j < rest.len() && #[trigger] rest[j].0 == q {
                    let j = choose|j: int| 0 <= j < rest.len() && #[trigger] rest[j].0 == q;
                    assert(es[j + 1].0 == q);
                }
            }
        }
    }
}

impl SmartSwitchKey {
    /// The remembered applications, each once, with identifiers and modes as remembered.
    pub proof fn lemma_entries(&self)
        requires self.wf(),
        ensures
            distinct_ids(self.spec_entries()),
            spec_insert_all(Map::empty(), self.spec_entries()) == self@,
    {
        let es = self.spec_entries();
        self.data.lemma_lens();
        assert forall|i: int, j: int| 0 <= i < es.len() && 0 <= j < es.len() && #[trigger] es[i].0 == #[trigger] es[j].0 implies i == j by {
            assert(self.data.spec_keys()[i] == spec_codes(self.data.spec_vals()[i].id@));
            assert(self.data.spec_keys()[j] == spec_codes(self.data.spec_vals()[j].id@));
            self.data.lemma_keys_distinct(i, j);
        }
        let m = spec_insert_all(Map::empty(), es);
        assert forall|q: Seq<char>| #[trigger] m.contains_key(q) == self@.contains_key(q) by {
            lemma_insert_all(Map::empty(), es, q);
            if exists|i: int| 0 <= i < es.len() && #[trigger] es[i].0 == q {
                let i = choose|i: int| 0 <= i < es.len() && #[trigger] es[i].0 == q;
                self.lemma_view_at(i);
            }
            if self@.contains_key(q) {
                let ks = self.data.spec_keys();
                let i = ks.index_of(spec_codes(q));
                assert(ks[i] == spec_codes(self.data.spec_vals()[i].id@));
                lemma_codes_injective(q, self.data.spec_vals()[i].id@);
                assert(es[i].0 == q);
            }
        }
        assert forall|q: Seq<char>| m.contains_key(q) implies #[trigger] m[q] == self@[q] by {
            lemma_insert_all(Map::empty(), es, q);
            let i = choose|i: int| 0 <= i < es.len() && #[trigger] es[i].0 == q;
            self.lemma_view_at(i);
        }
        assert(m =~= self@);
    }
}

/// Saving the remembered applications and loading the saved bytes gives back
/// the same applications and modes, when there are fewer than 65536 of them
/// and each identifier has fewer than 256 UTF-8 bytes.
pub proof fn lemma_switch_save_load(s: &SmartSwitchKey)
    requires
        s.wf(),
        s.spec_entries().len() < 65536,
        short_ids(s.spec_entries()),
    ensures
        spec_insert_all(Map::empty(), spec_parse_switch(spec_switch_bytes(s.spec_entries()))) == s@,
{
    lemma_parse_switch_bytes(s.spec_entries());
    s.lemma_entries();
}

} // verus!
