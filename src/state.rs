//! The two record kinds (registry metadata and registry node), their models,
//! their encodings, and the framing of a node inside its storage slot.
use crate::codec::{
    string_from_utf8,
    enc_bool, enc_lists, enc_str, enc_strs, lemma_parse_lists, lemma_parse_str, lemma_parse_strs,
    lists_fit, parse_bool, parse_key, parse_lists, parse_str, parse_strs, read_bool, read_key,
    read_lists, read_string, read_strings, str_fits, strs_fit, write_bool, write_key, write_lists,
    write_string, write_strings, PREFIX_MAX, le_u64, u64_at, read_u64_le,
    write_u64_le, lemma_u64_le_round_trip, enc_str_items, enc_list_items,
};
use vstd::prelude::*;
use vstd::utf8::*;

verus! {

broadcast use vstd::utf8::encode_utf8_valid_utf8, vstd::utf8::encode_utf8_decode_utf8;

/// The singleton record that configures the registry.
#[derive(Clone, Copy, Debug)]
pub struct RegistryMetaAccount {
    /// The address of the first (most-recently-added) node.
    pub head_registry_node: [u8; 32],
    /// The fee required to create a node.
    pub fee_amount: u64,
    /// The mint that fees are paid in.
    pub fee_mint: [u8; 32],
    /// The owner of the token account that receives fees.
    pub fee_destination: [u8; 32],
    /// The identity allowed to change the fee settings.
    pub fee_update_authority: [u8; 32],
    /// Set once the registry has been set up.
    pub initialized: bool,
}

/// The values a metadata record holds.
pub struct MetaView {
    pub head: Seq<u8>,
    pub fee_amount: u64,
    pub fee_mint: Seq<u8>,
    pub fee_destination: Seq<u8>,
    pub fee_authority: Seq<u8>,
    pub initialized: bool,
}

impl View for RegistryMetaAccount {
    type V = MetaView;

    open spec fn view(&self) -> MetaView {
        MetaView {
            head: self.head_registry_node@,
            fee_amount: self.fee_amount,
            fee_mint: self.fee_mint@,
            fee_destination: self.fee_destination@,
            fee_authority: self.fee_update_authority@,
            initialized: self.initialized,
        }
    }
}

/// The descriptive fields of a node, as supplied when an entry is created or updated.
#[derive(Debug)]
pub struct CreateUpdateEntryInstructionData {
    pub token_symbol: String,
    pub token_name: String,
    pub token_logo_url: String,
    pub token_tags: Vec<String>,
    pub token_extensions: Vec<Vec<String>>,
}

/// The values of the descriptive fields.
pub struct EntryView {
    pub symbol: Seq<char>,
    pub name: Seq<char>,
    pub logo_url: Seq<char>,
    pub tags: Seq<Seq<char>>,
    pub extensions: Seq<Seq<Seq<char>>>,
}

impl View for CreateUpdateEntryInstructionData {
    type V = EntryView;

    open spec fn view(&self) -> EntryView {
        EntryView {
            symbol: self.token_symbol@,
            name: self.token_name@,
            logo_url: self.token_logo_url@,
            tags: self.token_tags.deep_view(),
            extensions: self.token_extensions.deep_view(),
        }
    }
}

/// One node of the registry's linked list: a sentinel, or the record of one mint.
#[derive(Debug)]
pub struct RegistryNodeAccount {
    /// The address of the next node.
    pub next_registry_node: [u8; 32],
    /// The address of the previous node.
    pub prev_registry_node: [u8; 32],
    /// The mint this node describes (zero for the sentinels).
    pub token_mint: [u8; 32],
    /// The token ticker.
    pub token_symbol: String,
    /// The token name.
    pub token_name: String,
    /// URL of the token's logo.
    pub token_logo_url: String,
    /// Tags identifying the token (e.g. "stablecoin", "lp-token").
    pub token_tags: Vec<String>,
    /// Links for the token as key/value lists (e.g. "website", "twitter").
    pub token_extensions: Vec<Vec<String>>,
    /// The identity allowed to update, delete or hand over this node.
    pub token_update_authority: [u8; 32],
    /// The tombstone flag: a deleted node keeps its slot and its place in the list.
    pub deleted: bool,
}

/// The values a node record holds.
pub struct NodeView {
    pub next: Seq<u8>,
    pub prev: Seq<u8>,
    pub mint: Seq<u8>,
    pub entry: EntryView,
    pub authority: Seq<u8>,
    pub deleted: bool,
}

impl View for RegistryNodeAccount {
    type V = NodeView;

    open spec fn view(&self) -> NodeView {
        NodeView {
            next: self.next_registry_node@,
            prev: self.prev_registry_node@,
            mint: self.token_mint@,
            entry: EntryView {
                symbol: self.token_symbol@,
                name: self.token_name@,
                logo_url: self.token_logo_url@,
                tags: self.token_tags.deep_view(),
                extensions: self.token_extensions.deep_view(),
            },
            authority: self.token_update_authority@,
            deleted: self.deleted,
        }
    }
}

/// Every text and list of an entry fits under its prefix.
pub open spec fn entry_fits(e: EntryView) -> bool {
    &&& str_fits(e.symbol)
    &&& str_fits(e.name)
    &&& str_fits(e.logo_url)
    &&& strs_fit(e.tags)
    &&& lists_fit(e.extensions)
}

/// A node record that can be encoded: 32-byte keys and fitting fields.
pub open spec fn node_fits(n: NodeView) -> bool {
    &&& n.next.len() == 32
    &&& n.prev.len() == 32
    &&& n.mint.len() == 32
    &&& n.authority.len() == 32
    &&& entry_fits(n.entry)
}

pub open spec fn enc_entry(e: EntryView) -> Seq<u8> {
    enc_str(e.symbol) + enc_str(e.name) + enc_str(e.logo_url) + enc_strs(e.tags) + enc_lists(
        e.extensions,
    )
}

pub open spec fn enc_node(n: NodeView) -> Seq<u8> {
    n.next + n.prev + n.mint + enc_entry(n.entry) + n.authority + enc_bool(n.deleted)
}

/// Reads the descriptive fields at `p`.
pub open spec fn parse_entry(b: Seq<u8>, p: int) -> Option<(EntryView, int)> {
    match parse_str(b, p) {
        None => None,
        Some((symbol, p1)) => match parse_str(b, p1) {
            None => None,
            Some((name, p2)) => match parse_str(b, p2) {
                None => None,
                Some((logo_url, p3)) => match parse_strs(b, p3) {
                    None => None,
                    Some((tags, p4)) => match parse_lists(b, p4) {
                        None => None,
                        Some((extensions, p5)) => Some(
                            (EntryView { symbol, name, logo_url, tags, extensions }, p5),
                        ),
                    },
                },
            },
        },
    }
}

/// Reads a node record that takes up all of `b`.
pub open spec fn parse_node(b: Seq<u8>) -> Option<NodeView> {
    match parse_entry(b, 96) {
        None => None,
        Some((entry, q)) => match parse_key(b, q) {
            None => None,
            Some((authority, q1)) => match parse_bool(b, q1) {
                Some((deleted, q2)) if q2 == b.len() => Some(
                    NodeView {
                        next: b.subrange(0, 32),
                        prev: b.subrange(32, 64),
                        mint: b.subrange(64, 96),
                        entry,
                        authority,
                        deleted,
                    },
                ),
                _ => None,
            },
        },
    }
}

/// Reads descriptive fields that take up all of `b`.
pub open spec fn parse_entry_exact(b: Seq<u8>) -> Option<EntryView> {
    match parse_entry(b, 0) {
        Some((e, q)) if q == b.len() => Some(e),
        _ => None,
    }
}

/// Splitting a window of `b` that holds `x + y` gives a window for `x` and one for `y`.
pub proof fn lemma_split(b: Seq<u8>, p: int, x: Seq<u8>, y: Seq<u8>)
    requires
        0 <= p,
        p + x.len() + y.len() <= b.len(),
        b.subrange(p, p + x.len() + y.len()) == x + y,
    ensures
        b.subrange(p, p + x.len()) == x,
        b.subrange(p + x.len(), p + x.len() + y.len()) == y,
{
    let w = b.subrange(p, p + x.len() + y.len());
    assert(b.subrange(p, p + x.len()) =~= w.subrange(0, x.len() as int));
    assert((x + y).subrange(0, x.len() as int) =~= x);
    assert(b.subrange(p + x.len(), p + x.len() + y.len()) =~= w.subrange(
        x.len() as int,
        (x.len() + y.len()) as int,
    ));
    assert((x + y).subrange(x.len() as int, (x.len() + y.len()) as int) =~= y);
}

/// Reading back what `enc_entry` wrote yields the same fields.
pub proof fn lemma_parse_entry(b: Seq<u8>, p: int, e: EntryView)
    requires
        entry_fits(e),
        0 <= p,
        p + enc_entry(e).len() <= b.len(),
        b.subrange(p, p + enc_entry(e).len()) == enc_entry(e),
    ensures
        parse_entry(b, p) == Some((e, p + enc_entry(e).len())),
{
    let s0 = enc_str(e.symbol);
    let s1 = enc_str(e.name);
    let s2 = enc_str(e.logo_url);
    let s3 = enc_strs(e.tags);
    let s4 = enc_lists(e.extensions);
    lemma_split(b, p, s0 + s1 + s2 + s3, s4);
    lemma_split(b, p, s0 + s1 + s2, s3);
    lemma_split(b, p, s0 + s1, s2);
    lemma_split(b, p, s0, s1);
    lemma_parse_str(b, p, e.symbol);
    lemma_parse_str(b, p + s0.len(), e.name);
    lemma_parse_str(b, p + s0.len() + s1.len(), e.logo_url);
    lemma_parse_strs(b, p + s0.len() + s1.len() + s2.len(), e.tags);
    lemma_parse_lists(b, p + s0.len() + s1.len() + s2.len() + s3.len(), e.extensions);
}

/// Round trip of the node codec: decoding an encoded record gives the record back.
pub proof fn lemma_node_round_trip(n: NodeView)
    requires
        node_fits(n),
    ensures
        parse_node(enc_node(n)) == Some(n),
{
    let b = enc_node(n);
    let ee = enc_entry(n.entry);
    let keys = n.next + n.prev + n.mint;
    let q: int = 96 + ee.len() as int;
    assert(b.len() == q + 33);
    assert(b.subrange(0, b.len() as int) =~= b);
    lemma_split(b, 0, keys + ee + n.authority, enc_bool(n.deleted));
    lemma_split(b, 0, keys + ee, n.authority);
    lemma_split(b, 0, keys, ee);
    lemma_parse_entry(b, 96, n.entry);
    assert(parse_entry(b, 96) == Some((n.entry, q)));
    assert(parse_key(b, q) == Some((n.authority, q + 32)));
    assert(b[q + 32] == enc_bool(n.deleted)[0]) by {
        assert(b.subrange(q + 32, q + 33)[0] == b[q + 32]);
    }
    assert(parse_bool(b, q + 32) == Some((n.deleted, q + 33)));
    assert(b.subrange(0, 32) =~= n.next) by {
        lemma_split(b, 0, n.next + n.prev, n.mint);
        lemma_split(b, 0, n.next, n.prev);
    }
    assert(b.subrange(32, 64) =~= n.prev) by {
        lemma_split(b, 0, n.next + n.prev, n.mint);
        lemma_split(b, 0, n.next, n.prev);
    }
    assert(b.subrange(64, 96) =~= n.mint) by {
        lemma_split(b, 0, n.next + n.prev, n.mint);
    }
}

/// Round trip of the entry codec.
pub proof fn lemma_entry_round_trip(e: EntryView)
    requires
        entry_fits(e),
    ensures
        parse_entry_exact(enc_entry(e)) == Some(e),
{
    let b = enc_entry(e);
    assert(b.subrange(0, b.len() as int) =~= b);
    lemma_parse_entry(b, 0, e);
}


/// Whether the text `s` fits under a length prefix.
fn string_fits(s: &String) -> (r: bool)
    ensures
        r == str_fits(s@),
{
    (s.as_str().as_bytes().len() as u64) <= PREFIX_MAX
}

/// Whether the texts `v` fit under their prefixes.
fn strings_fit(v: &Vec<String>) -> (r: bool)
    ensures
        r == strs_fit(v.deep_view()),
{
    if v.len() as u64 > PREFIX_MAX {
        return false;
    }
    let mut i: usize = 0;
    while i < v.len()
        invariant
            i <= v@.len() <= PREFIX_MAX,
            forall|j: int| 0 <= j < i ==> str_fits(#[trigger] v.deep_view()[j]),
        decreases v@.len() - i,
    {
        if !string_fits(&v[i]) {
            assert(!str_fits(v.deep_view()[i as int]));
            return false;
        }
        i = i + 1;
    }
    true
}

/// Whether the lists `v` fit under their prefixes.
fn lists_of_strings_fit(v: &Vec<Vec<String>>) -> (r: bool)
    ensures
        r == lists_fit(v.deep_view()),
{
    if v.len() as u64 > PREFIX_MAX {
        return false;
    }
    let mut i: usize = 0;
    while i < v.len()
        invariant
            i <= v@.len() <= PREFIX_MAX,
            forall|j: int| 0 <= j < i ==> strs_fit(#[trigger] v.deep_view()[j]),
        decreases v@.len() - i,
    {
        if !strings_fit(&v[i]) {
            assert(!strs_fit(v.deep_view()[i as int]));
            return false;
        }
        i = i + 1;
    }
    true
}

/// Whether the descriptive fields fit under their prefixes.
fn fields_fit(
    symbol: &String,
    name: &String,
    logo_url: &String,
    tags: &Vec<String>,
    extensions: &Vec<Vec<String>>,
) -> (r: bool)
    ensures
        r == entry_fits(
            EntryView {
                symbol: symbol@,
                name: name@,
                logo_url: logo_url@,
                tags: tags.deep_view(),
                extensions: extensions.deep_view(),
            },
        ),
{
    string_fits(symbol) && string_fits(name) && string_fits(logo_url) && strings_fit(tags)
        && lists_of_strings_fit(extensions)
}

/// Appends the encoding of the descriptive fields.
fn write_fields(
    out: &mut Vec<u8>,
    symbol: &String,
    name: &String,
    logo_url: &String,
    tags: &Vec<String>,
    extensions: &Vec<Vec<String>>,
)
    requires
        entry_fits(
            EntryView {
                symbol: symbol@,
                name: name@,
                logo_url: logo_url@,
                tags: tags.deep_view(),
                extensions: extensions.deep_view(),
            },
        ),
    ensures
        final(out)@ == old(out)@ + enc_entry(
            EntryView {
                symbol: symbol@,
                name: name@,
                logo_url: logo_url@,
                tags: tags.deep_view(),
                extensions: extensions.deep_view(),
            },
        ),
{
    write_string(out, symbol);
    write_string(out, name);
    write_string(out, logo_url);
    write_strings(out, tags);
    write_lists(out, extensions);
    assert(final(out)@ =~= old(out)@ + enc_entry(
        EntryView {
            symbol: symbol@,
            name: name@,
            logo_url: logo_url@,
            tags: tags.deep_view(),
            extensions: extensions.deep_view(),
        },
    ));
}

impl CreateUpdateEntryInstructionData {
    /// Whether every field fits under its length prefix.
    pub fn fits(&self) -> (r: bool)
        ensures
            r == entry_fits(self@),
    {
        fields_fit(
            &self.token_symbol,
            &self.token_name,
            &self.token_logo_url,
            &self.token_tags,
            &self.token_extensions,
        )
    }

    /// The encoding of the fields.
    pub fn encode(&self) -> (r: Vec<u8>)
        requires
            entry_fits(self@),
        ensures
            r@ == enc_entry(self@),
    {
        let mut out: Vec<u8> = Vec::new();
        write_fields(
            &mut out,
            &self.token_symbol,
            &self.token_name,
            &self.token_logo_url,
            &self.token_tags,
            &self.token_extensions,
        );
        assert(out@ =~= enc_entry(self@));
        out
    }

    /// Reads the fields at `p`, and the position after them.
    pub fn read_at(b: &[u8], p: usize) -> (r: Option<(CreateUpdateEntryInstructionData, usize)>)
        ensures
            match parse_entry(b@, p as int) {
                None => r is None,
                Some((e, q)) => r matches Some((x, y)) && x@ == e && y == q,
            },
    {
        let (token_symbol, p1) = match read_string(b, p) {
            None => return None,
            Some(x) => x,
        };
        let (token_name, p2) = match read_string(b, p1) {
            None => return None,
            Some(x) => x,
        };
        let (token_logo_url, p3) = match read_string(b, p2) {
            None => return None,
            Some(x) => x,
        };
        let (token_tags, p4) = match read_strings(b, p3) {
            None => return None,
            Some(x) => x,
        };
        let (token_extensions, p5) = match read_lists(b, p4) {
            None => return None,
            Some(x) => x,
        };
        Some(
            (
                CreateUpdateEntryInstructionData {
                    token_symbol,
                    token_name,
                    token_logo_url,
                    token_tags,
                    token_extensions,
                },
                p5,
            ),
        )
    }

    /// Decodes fields that take up all of `b`.
    pub fn decode(b: &[u8]) -> (r: Option<CreateUpdateEntryInstructionData>)
        ensures
            match parse_entry_exact(b@) {
                None => r is None,
                Some(e) => r matches Some(x) && x@ == e,
            },
    {
        match Self::read_at(b, 0) {
            None => None,
            Some((x, q)) => if q == b.len() {
                Some(x)
            } else {
                None
            },
        }
    }
}


impl RegistryNodeAccount {
    /// Whether every descriptive field fits under its length prefix.
    pub fn fits(&self) -> (r: bool)
        ensures
            r == node_fits(self@),
    {
        fields_fit(
            &self.token_symbol,
            &self.token_name,
            &self.token_logo_url,
            &self.token_tags,
            &self.token_extensions,
        )
    }

    /// The encoding of the record.
    pub fn encode(&self) -> (r: Vec<u8>)
        requires
            node_fits(self@),
        ensures
            r@ == enc_node(self@),
    {
        let mut out: Vec<u8> = Vec::new();
        write_key(&mut out, &self.next_registry_node);
        write_key(&mut out, &self.prev_registry_node);
        write_key(&mut out, &self.token_mint);
        write_fields(
            &mut out,
            &self.token_symbol,
            &self.token_name,
            &self.token_logo_url,
            &self.token_tags,
            &self.token_extensions,
        );
        write_key(&mut out, &self.token_update_authority);
        write_bool(&mut out, self.deleted);
        assert(out@ =~= enc_node(self@));
        out
    }

    /// Decodes a record that takes up all of `b`.
    pub fn decode(b: &[u8]) -> (r: Option<RegistryNodeAccount>)
        ensures
            match parse_node(b@) {
                None => r is None,
                Some(v) => r matches Some(x) && x@ == v,
            },
    {
        let (next_registry_node, _) = match read_key(b, 0) {
            None => return None,
            Some(x) => x,
        };
        let (prev_registry_node, _) = match read_key(b, 32) {
            None => return None,
            Some(x) => x,
        };
        let (token_mint, _) = match read_key(b, 64) {
            None => return None,
            Some(x) => x,
        };
        let (fields, q) = match CreateUpdateEntryInstructionData::read_at(b, 96) {
            None => return None,
            Some(x) => x,
        };
        let (token_update_authority, q1) = match read_key(b, q) {
            None => return None,
            Some(x) => x,
        };
        let (deleted, q2) = match read_bool(b, q1) {
            None => return None,
            Some(x) => x,
        };
        if q2 != b.len() {
            return None;
        }
        Some(
            RegistryNodeAccount {
                next_registry_node,
                prev_registry_node,
                token_mint,
                token_symbol: fields.token_symbol,
                token_name: fields.token_name,
                token_logo_url: fields.token_logo_url,
                token_tags: fields.token_tags,
                token_extensions: fields.token_extensions,
                token_update_authority,
                deleted,
            },
        )
    }
}

/// Size of an encoded metadata record.
pub const META_LEN: usize = 137;

/// A metadata record with 32-byte keys.
pub open spec fn meta_fits(m: MetaView) -> bool {
    &&& m.head.len() == 32
    &&& m.fee_mint.len() == 32
    &&& m.fee_destination.len() == 32
    &&& m.fee_authority.len() == 32
}

pub open spec fn enc_meta(m: MetaView) -> Seq<u8> {
    m.head + le_u64(m.fee_amount) + m.fee_mint + m.fee_destination + m.fee_authority + enc_bool(
        m.initialized,
    )
}

/// Reads a metadata record that takes up all of `b`.
pub open spec fn parse_meta(b: Seq<u8>) -> Option<MetaView> {
    if b.len() == META_LEN && b[136] <= 1 {
        Some(
            MetaView {
                head: b.subrange(0, 32),
                fee_amount: u64_at(b, 32),
                fee_mint: b.subrange(40, 72),
                fee_destination: b.subrange(72, 104),
                fee_authority: b.subrange(104, 136),
                initialized: b[136] == 1,
            },
        )
    } else {
        None
    }
}

/// Round trip of the metadata codec.
pub proof fn lemma_meta_round_trip(m: MetaView)
    requires
        meta_fits(m),
    ensures
        parse_meta(enc_meta(m)) == Some(m),
{
    let b = enc_meta(m);
    lemma_u64_le_round_trip(m.fee_amount);
    assert(b.subrange(0, 32) =~= m.head);
    assert(b.subrange(32, 40) =~= le_u64(m.fee_amount));
    assert(b.subrange(40, 72) =~= m.fee_mint);
    assert(b.subrange(72, 104) =~= m.fee_destination);
    assert(b.subrange(104, 136) =~= m.fee_authority);
    assert(u64_at(b, 32) == u64_at(le_u64(m.fee_amount), 0)) by {
        assert(forall|i: int| 0 <= i < 8 ==> b[32 + i] == #[trigger] le_u64(m.fee_amount)[i]);
    }
}

impl RegistryMetaAccount {
    /// The encoding of the record.
    pub fn encode(&self) -> (r: Vec<u8>)
        ensures
            r@ == enc_meta(self@),
            r@.len() == META_LEN,
    {
        let mut out: Vec<u8> = Vec::new();
        write_key(&mut out, &self.head_registry_node);
        write_u64_le(&mut out, self.fee_amount);
        write_key(&mut out, &self.fee_mint);
        write_key(&mut out, &self.fee_destination);
        write_key(&mut out, &self.fee_update_authority);
        write_bool(&mut out, self.initialized);
        assert(out@ =~= enc_meta(self@));
        out
    }

    /// Decodes a record that takes up all of `b`.
    pub fn decode(b: &[u8]) -> (r: Option<RegistryMetaAccount>)
        ensures
            match parse_meta(b@) {
                None => r is None,
                Some(v) => r matches Some(x) && x@ == v,
            },
    {
        if b.len() != META_LEN || b[136] > 1 {
            return None;
        }
        let (head_registry_node, _) = read_key(b, 0).unwrap();
        let fee_amount = read_u64_le(b, 32).unwrap();
        let (fee_mint, _) = read_key(b, 40).unwrap();
        let (fee_destination, _) = read_key(b, 72).unwrap();
        let (fee_update_authority, _) = read_key(b, 104).unwrap();
        Some(
            RegistryMetaAccount {
                head_registry_node,
                fee_amount,
                fee_mint,
                fee_destination,
                fee_update_authority,
                initialized: b[136] == 1,
            },
        )
    }
}


/// `n` NUL characters.
pub open spec fn nuls(n: nat) -> Seq<char> {
    Seq::new(n, |i: int| '\0')
}

pub proof fn lemma_nuls_utf8(n: nat)
    ensures
        encode_utf8(nuls(n)) == Seq::new(n, |i: int| 0u8),
    decreases n,
{
    if n > 0 {
        lemma_nuls_utf8((n - 1) as nat);
        assert(nuls(n).drop_first() =~= nuls((n - 1) as nat));
        let z: u32 = '\0' as u32;
        assert(z == 0);
        assert((z & 0x7F) as u8 == 0) by (bit_vector)
            requires
                z == 0,
        ;
        assert(encode_scalar(nuls(n)[0] as u32) =~= seq![0u8]);
        assert(encode_utf8(nuls(n)) =~= Seq::new(n, |i: int| 0u8));
    } else {
        assert(encode_utf8(nuls(n)) =~= Seq::new(n, |i: int| 0u8));
    }
}

/// A text of `n` NUL characters.
fn nul_string(n: usize) -> (r: String)
    ensures
        r@ == nuls(n as nat),
{
    let mut bytes: Vec<u8> = Vec::new();
    let mut i: usize = 0;
    while i < n
        invariant
            i <= n,
            bytes@ == Seq::new(i as nat, |j: int| 0u8),
        decreases n - i,
    {
        bytes.push(0u8);
        i = i + 1;
        assert(bytes@ =~= Seq::new(i as nat, |j: int| 0u8));
    }
    proof {
        lemma_nuls_utf8(n as nat);
    }
    string_from_utf8(bytes).unwrap()
}

/// The largest record a node slot is sized for: a 16-byte symbol, a 32-byte
/// name, a 256-byte logo URL, two 256-byte tags and two extensions of two
/// 256-byte texts each.
pub open spec fn max_filled_view() -> NodeView {
    NodeView {
        next: Seq::new(32, |i: int| 0u8),
        prev: Seq::new(32, |i: int| 0u8),
        mint: Seq::new(32, |i: int| 0u8),
        entry: EntryView {
            symbol: nuls(16),
            name: nuls(32),
            logo_url: nuls(256),
            tags: seq![nuls(256), nuls(256)],
            extensions: seq![seq![nuls(256), nuls(256)], seq![nuls(256), nuls(256)]],
        },
        authority: Seq::new(32, |i: int| 0u8),
        deleted: false,
    }
}

impl RegistryNodeAccount {
    /// The worst-case record from which a node slot's capacity is computed.
    pub fn max_filled() -> (r: RegistryNodeAccount)
        ensures
            r@ == max_filled_view(),
    {
        let wide = nul_string(256);
        let mut tags: Vec<String> = Vec::new();
        tags.push(wide.clone());
        tags.push(wide.clone());
        let mut pair: Vec<String> = Vec::new();
        pair.push(wide.clone());
        pair.push(wide.clone());
        let mut pair2: Vec<String> = Vec::new();
        pair2.push(wide.clone());
        pair2.push(wide.clone());
        let mut extensions: Vec<Vec<String>> = Vec::new();
        extensions.push(pair);
        extensions.push(pair2);
        let r = RegistryNodeAccount {
            next_registry_node: [0u8; 32],
            prev_registry_node: [0u8; 32],
            token_mint: [0u8; 32],
            token_symbol: nul_string(16),
            token_name: nul_string(32),
            token_logo_url: wide,
            token_tags: tags,
            token_extensions: extensions,
            token_update_authority: [0u8; 32],
            deleted: false,
        };
        assert(r.token_tags.deep_view() =~= seq![nuls(256), nuls(256)]);
        assert(r.token_extensions[0].deep_view() =~= seq![nuls(256), nuls(256)]);
        assert(r.token_extensions[1].deep_view() =~= seq![nuls(256), nuls(256)]);
        assert(r.token_extensions.deep_view() =~= seq![
            seq![nuls(256), nuls(256)],
            seq![nuls(256), nuls(256)],
        ]);
        assert(r.next_registry_node@ =~= Seq::new(32, |i: int| 0u8));
        assert(r.prev_registry_node@ =~= Seq::new(32, |i: int| 0u8));
        assert(r.token_mint@ =~= Seq::new(32, |i: int| 0u8));
        assert(r.token_update_authority@ =~= Seq::new(32, |i: int| 0u8));
        r
    }
}


/// The worst-case record fits its prefixes and encodes to 2021 bytes.
pub proof fn lemma_max_filled_fits()
    ensures
        node_fits(max_filled_view()),
        enc_node(max_filled_view()).len() == 2021,
{
    let m = max_filled_view();
    lemma_nuls_utf8(16);
    lemma_nuls_utf8(32);
    lemma_nuls_utf8(256);
    let w = seq![nuls(256), nuls(256)];
    assert(strs_fit(w));
    assert(w.drop_last() =~= seq![nuls(256)]);
    assert(seq![nuls(256)].drop_last() =~= Seq::<Seq<char>>::empty());
    assert(enc_str(nuls(256)).len() == 260);
    assert(enc_str_items(seq![nuls(256)]) == enc_str_items(Seq::<Seq<char>>::empty()) + enc_str(
        nuls(256),
    ));
    assert(enc_str_items(w) == enc_str_items(seq![nuls(256)]) + enc_str(nuls(256)));
    assert(enc_str_items(w).len() == 520);
    let x = seq![w, w];
    assert(lists_fit(x));
    assert(x.drop_last() =~= seq![w]);
    assert(seq![w].drop_last() =~= Seq::<Seq<Seq<char>>>::empty());
    assert(enc_strs(w).len() == 524);
    assert(enc_list_items(seq![w]) == enc_list_items(Seq::<Seq<Seq<char>>>::empty()) + enc_strs(w));
    assert(enc_list_items(x) == enc_list_items(seq![w]) + enc_strs(w));
    assert(enc_list_items(x).len() == 1048);
}

} // verus!
