//! Common types used across the Letta API.

use vstd::prelude::*;

verus! {

/// Generic pagination parameters for list operations.
#[derive(Debug)]
pub struct PaginationParams {
    /// Cursor for pagination (before this ID).
    pub before: Option<String>,
    /// Cursor for pagination (after this ID).
    pub after: Option<String>,
    /// Maximum number of items to return.
    pub limit: Option<u32>,
    /// Whether to return results in ascending order.
    pub ascending: Option<bool>,
}

impl Clone for PaginationParams {
    fn clone(&self) -> (r: Self)
        ensures
            r == *self,
    {
        PaginationParams {
            before: self.before.clone(),
            after: self.after.clone(),
            limit: self.limit,
            ascending: self.ascending,
        }
    }
}

impl Default for PaginationParams {
    fn default() -> (r: Self)
        ensures
            r.before is None,
            r.after is None,
            r.limit is None,
            r.ascending is None,
    {
        PaginationParams { before: None, after: None, limit: None, ascending: None }
    }
}

impl PaginationParams {
    /// Create new pagination parameters, all unset.
    pub fn new() -> (r: Self)
        ensures
            r.before is None,
            r.after is None,
            r.limit is None,
            r.ascending is None,
    {
        Self::default()
    }

    /// Set the before cursor.
    pub fn before(self, before: &str) -> (r: Self)
        ensures
            r.before matches Some(b) && b@ == before@,
            r.after == self.after,
            r.limit == self.limit,
            r.ascending == self.ascending,
    {
        PaginationParams { before: Some(before.to_string()), ..self }
    }

    /// Set the after cursor.
    pub fn after(self, after: &str) -> (r: Self)
        ensures
            r.after matches Some(a) && a@ == after@,
            r.before == self.before,
            r.limit == self.limit,
            r.ascending == self.ascending,
    {
        PaginationParams { after: Some(after.to_string()), ..self }
    }

    /// Set the limit.
    pub fn limit(self, limit: u32) -> (r: Self)
        ensures
            r.limit == Some(limit),
            r.before == self.before,
            r.after == self.after,
            r.ascending == self.ascending,
    {
        PaginationParams { limit: Some(limit), ..self }
    }

    /// Set ascending order.
    pub fn ascending(self, ascending: bool) -> (r: Self)
        ensures
            r.ascending == Some(ascending),
            r.before == self.before,
            r.after == self.after,
            r.limit == self.limit,
    {
        PaginationParams { ascending: Some(ascending), ..self }
    }
}

/// Pagination parameters for APIs that only support forward pagination.
#[derive(Debug)]
pub struct AfterOnlyPaginationParams {
    /// Cursor for pagination (after this ID).
    pub after: Option<String>,
    /// Maximum number of items to return.
    pub limit: Option<u32>,
}

impl Default for AfterOnlyPaginationParams {
    fn default() -> (r: Self)
        ensures
            r.after is None,
            r.limit is None,
    {
        AfterOnlyPaginationParams { after: None, limit: None }
    }
}

impl AfterOnlyPaginationParams {
    /// Create new pagination parameters, all unset.
    pub fn new() -> (r: Self)
        ensures
            r.after is None,
            r.limit is None,
    {
        Self::default()
    }

    /// Set the after cursor.
    pub fn after(self, after: &str) -> (r: Self)
        ensures
            r.after matches Some(a) && a@ == after@,
            r.limit == self.limit,
    {
        AfterOnlyPaginationParams { after: Some(after.to_string()), ..self }
    }

    /// Set the limit.
    pub fn limit(self, limit: u32) -> (r: Self)
        ensures
            r.limit == Some(limit),
            r.after == self.after,
    {
        AfterOnlyPaginationParams { limit: Some(limit), ..self }
    }
}

/// Generic response wrapper for paginated results.
#[derive(Debug)]
pub struct PaginatedResponse<T> {
    /// The items in this page.
    pub items: Vec<T>,
    /// Total count of items (if available).
    pub total: Option<u64>,
    /// Cursor for the next page.
    pub next_cursor: Option<String>,
    /// Cursor for the previous page.
    pub prev_cursor: Option<String>,
    /// Whether there are more items available.
    pub has_more: bool,
}

impl<T> PaginatedResponse<T> {
    /// Create a new paginated response holding `items`, with no cursors, no total and
    /// no more pages.
    pub fn new(items: Vec<T>) -> (r: Self)
        ensures
            r.items == items,
            r.total is None,
            r.next_cursor is None,
            r.prev_cursor is None,
            !r.has_more,
    {
        PaginatedResponse { items, total: None, next_cursor: None, prev_cursor: None, has_more: false }
    }

    /// Get the number of items in this page.
    pub fn len(&self) -> (r: usize)
        ensures
            r == self.items@.len(),
    {
        self.items.len()
    }

    /// Check if this page is empty.
    pub fn is_empty(&self) -> (r: bool)
        ensures
            r == (self.items@.len() == 0),
    {
        self.items.len() == 0
    }

    /// Get an iterator over the items.
    pub fn iter(&self) -> (r: core::slice::Iter<'_, T>)
        ensures
            vstd::std_specs::iter::IteratorSpec::remaining(&r) == self.items@.as_ref(),
    {
        broadcast use vstd::std_specs::slice::axiom_spec_slice_iter;
        self.items.as_slice().iter()
    }
}

/// Count response for count endpoints.
#[derive(Debug)]
pub struct CountResponse {
    /// The count value.
    pub count: u64,
}

/// Sort order for list operations.
#[derive(PartialEq, Eq, Structural, Clone, Copy, Debug)]
pub enum SortOrder {
    /// Ascending order.
    Asc,
    /// Descending order.
    Desc,
}

impl Default for SortOrder {
    fn default() -> (r: Self)
        ensures
            r == SortOrder::Desc,
    {
        SortOrder::Desc
    }
}

/// Common query parameters for list operations.
#[derive(Debug)]
pub struct ListParams {
    /// Pagination parameters.
    pub pagination: PaginationParams,
    /// Optional search query.
    pub query: Option<String>,
    /// Optional sort field.
    pub sort_by: Option<String>,
    /// Sort order.
    pub sort_order: Option<SortOrder>,
}

impl Default for ListParams {
    fn default() -> (r: Self)
        ensures
            r.pagination.before is None,
            r.pagination.after is None,
            r.pagination.limit is None,
            r.pagination.ascending is None,
            r.query is None,
            r.sort_by is None,
            r.sort_order is None,
    {
        ListParams { pagination: PaginationParams::default(), query: None, sort_by: None, sort_order: None }
    }
}

impl ListParams {
    /// Create new list parameters, all unset.
    pub fn new() -> (r: Self)
        ensures
            r.pagination.before is None,
            r.pagination.after is None,
            r.pagination.limit is None,
            r.pagination.ascending is None,
            r.query is None,
            r.sort_by is None,
            r.sort_order is None,
    {
        Self::default()
    }

    /// Set the search query.
    pub fn query(self, query: &str) -> (r: Self)
        ensures
            r.query matches Some(q) && q@ == query@,
            r.pagination == self.pagination,
            r.sort_by == self.sort_by,
            r.sort_order == self.sort_order,
    {
        ListParams { query: Some(query.to_string()), ..self }
    }

    /// Set the sort field.
    pub fn sort_by(self, sort_by: &str) -> (r: Self)
        ensures
            r.sort_by matches Some(s) && s@ == sort_by@,
            r.pagination == self.pagination,
            r.query == self.query,
            r.sort_order == self.sort_order,
    {
        ListParams { sort_by: Some(sort_by.to_string()), ..self }
    }

    /// Set the sort order.
    pub fn sort_order(self, order: SortOrder) -> (r: Self)
        ensures
            r.sort_order == Some(order),
            r.pagination == self.pagination,
            r.query == self.query,
            r.sort_by == self.sort_by,
    {
        ListParams { sort_order: Some(order), ..self }
    }

    /// Set pagination parameters.
    pub fn pagination(self, pagination: PaginationParams) -> (r: Self)
        ensures
            r.pagination == pagination,
            r.query == self.query,
            r.sort_by == self.sort_by,
            r.sort_order == self.sort_order,
    {
        ListParams { pagination, ..self }
    }

    /// Set the limit.
    pub fn limit(self, limit: u32) -> (r: Self)
        ensures
            r.pagination.limit == Some(limit),
            r.pagination.before == self.pagination.before,
            r.pagination.after == self.pagination.after,
            r.pagination.ascending == self.pagination.ascending,
            r.query == self.query,
            r.sort_by == self.sort_by,
            r.sort_order == self.sort_order,
    {
        let ListParams { pagination, query, sort_by, sort_order } = self;
        ListParams { pagination: PaginationParams { limit: Some(limit), ..pagination }, query, sort_by, sort_order }
    }
}

} // verus!

verus! {

/// The digit group index of position `j` of a hyphenated UUID.
pub open spec fn uuid_hex_index(j: int) -> int {
    if j < 8 {
        j
    } else if j < 13 {
        j - 1
    } else if j < 18 {
        j - 2
    } else if j < 23 {
        j - 3
    } else {
        j - 4
    }
}

/// Hexadecimal digit `i` (most significant first) of `u`.
pub open spec fn uuid_nibble(u: u128, i: int) -> int {
    ((u as int) / vstd::arithmetic::power::pow(16, (31 - i) as nat)) % 16
}

/// The hyphenated lower-case text of a UUID: 32 hexadecimal digits, most significant
/// first, with hyphens at positions 8, 13, 18 and 23.
pub open spec fn uuid_text(u: u128) -> Seq<char> {
    Seq::new(
        36,
        |j: int|
            if j == 8 || j == 13 || j == 18 || j == 23 {
                '-'
            } else {
                crate::json::hex_digit(uuid_nibble(u, uuid_hex_index(j)))
            },
    )
}

/// What `uuid::Uuid::from_str` gives, as the UUID's 128-bit value.
pub uninterp spec fn spec_uuid_parse(s: Seq<char>) -> Option<u128>;

pub open spec fn is_ascii_chars(s: Seq<char>) -> bool {
    forall|i: int| 0 <= i < s.len() ==> (#[trigger] s[i] as u32) < 0x80
}

/// `uuid::Uuid::from_str`, giving the UUID's 128-bit value. The contract names the
/// result and states what the parser's four accepted shapes imply: the text is ASCII
/// and is 32 or 36 characters long, or 38 ending in `}`, or 45 with `:` at index 3.
#[verifier::external_body]
pub(crate) fn uuid_parse(s: &str) -> (r: Option<u128>)
    ensures
        r == spec_uuid_parse(s@),
        r is Some ==> is_ascii_chars(s@),
        r is Some ==> (s@.len() == 32 || s@.len() == 36 || (s@.len() == 38 && s@.last() == '}')
            || (s@.len() == 45 && s@[3] == ':')),
{
    match s.parse::<uuid::Uuid>() {
        Ok(u) => Some(u.as_u128()),
        Err(_) => None,
    }
}

/// `uuid::Uuid::from_u128(u).to_string()`: the hyphenated lower-case text, which the
/// parser reads back as `u`; and since the text is 36 characters that are neither `}`
/// nor `:`, no text made of a prefix, a hyphen and it parses as a UUID unless the
/// prefix is 8 characters with `:` at index 3.
#[verifier::external_body]
pub(crate) fn uuid_to_string(u: u128) -> (r: String)
    ensures
        r@ == uuid_text(u),
        spec_uuid_parse(r@) == Some(u),
        forall|p: Seq<char>|
            !(p.len() == 8 && p[3] == ':') ==> #[trigger] spec_uuid_parse(p + seq!['-'] + r@) is None,
{
    uuid::Uuid::from_u128(u).to_string()
}

/// Error type for LettaId parsing.
#[derive(Debug)]
pub enum LettaIdError {
    /// Invalid ID format.
    InvalidFormat(String),
}

impl LettaIdError {
    /// The error's display text.
    pub fn to_string(&self) -> (r: String)
        ensures
            r@ == match self {
                LettaIdError::InvalidFormat(s) => "Invalid LettaId format: "@ + s@,
            },
    {
        match self {
            LettaIdError::InvalidFormat(s) => {
                let mut v: Vec<char> = Vec::new();
                crate::text::push_str(&mut v, "Invalid LettaId format: ");
                crate::text::push_str(&mut v, s.as_str());
                crate::text::string_of(&v)
            },
        }
    }
}

/// Letta resource identifier that can be either a bare UUID or a prefixed UUID
/// (such as `agent-550e8400-e29b-41d4-a716-446655440000`).
#[derive(Debug)]
pub struct LettaId {
    /// Optional prefix (e.g., "agent", "run", "tool").
    prefix: Option<String>,
    /// The UUID part, as its 128-bit value.
    uuid: u128,
}

/// Mathematical view of a [`LettaId`].
pub struct LettaIdView {
    pub prefix: Option<Seq<char>>,
    pub uuid: u128,
}

impl View for LettaId {
    type V = LettaIdView;

    closed spec fn view(&self) -> LettaIdView {
        LettaIdView { prefix: crate::json::opt_string_view(self.prefix), uuid: self.uuid }
    }
}

/// The text of an identifier: `prefix-uuid`, or the bare UUID.
pub open spec fn id_text(id: LettaIdView) -> Seq<char> {
    match id.prefix {
        Some(p) => p + seq!['-'] + uuid_text(id.uuid),
        None => uuid_text(id.uuid),
    }
}

/// A prefix the parser accepts: non-empty, not starting or ending with `-`, with an
/// alphanumeric character, and made of alphanumerics, `_` and `-`.
pub open spec fn valid_prefix(p: Seq<char>) -> bool {
    &&& p.len() > 0
    &&& p[0] != '-'
    &&& p.last() != '-'
    &&& exists|i: int| 0 <= i < p.len() && crate::text::is_alnum(#[trigger] p[i])
    &&& forall|i: int| 0 <= i < p.len() ==> (crate::text::is_alnum(#[trigger] p[i]) || p[i] == '_' || p[i] == '-')
}

/// Character index `k0` of the prefix end and `k1` of the UUID start, found from the
/// byte length of `s` as the parser does (the UUID is the last 36 bytes; the character
/// before it, counted in characters, must be `-`).
pub open spec fn id_split_candidate(s: Seq<char>) -> bool {
    let b = crate::text::byte_len(s);
    b > 36 && b - 37 < s.len() && s[b - 37] == '-'
}

/// Texts on which the parser would slice inside a character: at the start of the last
/// 36 bytes, or, when those parse as a UUID, one byte before.
pub open spec fn letta_id_cuts_off_boundary(s: Seq<char>) -> bool {
    let b = crate::text::byte_len(s);
    &&& spec_uuid_parse(s) is None
    &&& id_split_candidate(s)
    &&& match crate::text::char_index_of_byte(s, b - 36) {
        None => true,
        Some(k1) => spec_uuid_parse(s.skip(k1)) is Some && crate::text::char_index_of_byte(s, b - 37) is None,
    }
}

/// How a text parses as an identifier; `None` is an invalid format.
pub open spec fn letta_id_parse(s: Seq<char>) -> Option<LettaIdView> {
    let b = crate::text::byte_len(s);
    match spec_uuid_parse(s) {
        Some(u) => Some(LettaIdView { prefix: None, uuid: u }),
        None => if id_split_candidate(s) {
            match crate::text::char_index_of_byte(s, b - 36) {
                Some(k1) => match spec_uuid_parse(s.skip(k1)) {
                    Some(u) => match crate::text::char_index_of_byte(s, b - 37) {
                        Some(k0) => if valid_prefix(s.take(k0)) {
                            Some(LettaIdView { prefix: Some(s.take(k0)), uuid: u })
                        } else {
                            None
                        },
                        None => None,
                    },
                    None => None,
                },
                None => None,
            }
        } else {
            None
        },
    }
}

/// Identifiers whose text parses back to them: bare ones, and those whose prefix is
/// a valid ASCII prefix.
pub open spec fn text_roundtrips(id: LettaIdView) -> bool {
    match id.prefix {
        Some(p) => valid_prefix(p) && crate::text::all_ascii(p),
        None => true,
    }
}

pub proof fn lemma_hex_digit_ascii(n: int)
    requires
        0 <= n < 16,
    ensures
        (crate::json::hex_digit(n) as u32) < 0x80,
        crate::json::hex_digit(n) != '}',
        crate::json::hex_digit(n) != '-',
{
}

/// UUID texts are 36 ASCII characters.
pub proof fn lemma_uuid_text_ascii(u: u128)
    ensures
        uuid_text(u).len() == 36,
        crate::text::all_ascii(uuid_text(u)),
{
    assert forall|j: int| 0 <= j < 36 implies (#[trigger] uuid_text(u)[j] as u32) < 0x80 by {
        if !(j == 8 || j == 13 || j == 18 || j == 23) {
            let i = uuid_hex_index(j);
            let p = vstd::arithmetic::power::pow(16, (31 - i) as nat);
            vstd::arithmetic::power::lemma_pow_positive(16, (31 - i) as nat);
            assert(0 <= (u as int) / p) by (nonlinear_arith)
                requires
                    p > 0,
                    u >= 0,
            ;
            lemma_hex_digit_ascii(uuid_nibble(u, i));
        }
    }
}

/// The text `p-t` of a prefixed identifier parses back, when `t` is the UUID text of `u`
/// as `uuid_to_string` gives it.
pub proof fn lemma_prefixed_text_parses(p: Seq<char>, t: Seq<char>, u: u128)
    requires
        valid_prefix(p),
        crate::text::all_ascii(p),
        t == uuid_text(u),
        spec_uuid_parse(t) == Some(u),
        forall|q: Seq<char>|
            !(q.len() == 8 && q[3] == ':') ==> #[trigger] spec_uuid_parse(q + seq!['-'] + t) is None,
    ensures
        letta_id_parse(p + seq!['-'] + t) == Some(LettaIdView { prefix: Some(p), uuid: u }),
        !letta_id_cuts_off_boundary(p + seq!['-'] + t),
{
    let s = p + seq!['-'] + t;
    lemma_uuid_text_ascii(u);
    assert(crate::text::all_ascii(s)) by {
        assert forall|i: int| 0 <= i < s.len() implies (#[trigger] s[i] as u32) < 0x80 by {
            if i < p.len() {
            } else if i == p.len() {
            } else {
                assert(s[i] == t[i - p.len() - 1]);
            }
        }
    }
    if p.len() == 8 {
        assert(crate::text::is_alnum(p[3]) || p[3] == '_' || p[3] == '-');
        assert(p[3] != ':');
    }
    assert(spec_uuid_parse(s) is None);
    crate::text::lemma_ascii_byte_len(s);
    let b = crate::text::byte_len(s);
    assert(b == p.len() + 37);
    assert(s[b - 37] == '-');
    crate::text::lemma_ascii_char_index(s, b - 36);
    crate::text::lemma_ascii_char_index(s, b - 37);
    assert(s.skip(b - 36) == t);
    assert(s.take(b - 37) == p);
}

/// Law: parsing a text and printing the identifier gives the text back, when the
/// text's UUID part is written as identifiers print it (lower case, hyphenated) and,
/// for a prefixed identifier, a `-` stands right before that part.
pub proof fn law_letta_id_parse_print(s: Seq<char>)
    requires
        letta_id_parse(s) is Some,
        s.len() >= 36,
        uuid_text(letta_id_parse(s)->0.uuid) == s.skip(s.len() - 36),
        letta_id_parse(s)->0.prefix is None ==> s.len() == 36,
        letta_id_parse(s)->0.prefix is Some ==> s.len() > 36 && s[s.len() - 37] == '-',
    ensures
        id_text(letta_id_parse(s)->0) == s,
{
    let id = letta_id_parse(s)->0;
    let n = s.len() as int;
    lemma_uuid_text_ascii(id.uuid);
    if id.prefix is None {
        assert(s.skip(0) == s);
    } else {
        assert(spec_uuid_parse(s) is None);
        let b = crate::text::byte_len(s);
        assert forall|i: int| n - 36 <= i < n implies (#[trigger] s[i] as u32) < 0x80 by {
            assert(s[i] == s.skip(n - 36)[i - (n - 36)]);
        }
        crate::text::lemma_byte_len_ascii_tail(s, n - 36);
        crate::text::lemma_byte_len_take_step(s, n - 37);
        crate::text::lemma_char_index_of_byte(s, b - 36, n - 36);
        crate::text::lemma_char_index_of_byte(s, b - 37, n - 37);
        assert(id.prefix == Some(s.take(n - 37)));
        assert(id_text(id) =~= s.take(n - 37) + seq![s[n - 37]] + s.skip(n - 36));
        assert(s.take(n - 37) + seq![s[n - 37]] + s.skip(n - 36) =~= s);
    }
}

fn valid_prefix_exec(p: &[char]) -> (r: bool)
    ensures
        r == valid_prefix(p@),
{
    if p.len() == 0 || p[0] == '-' || p[p.len() - 1] == '-' {
        return false;
    }
    let mut any = false;
    let mut i: usize = 0;
    while i < p.len()
        invariant
            i <= p@.len(),
            p@.len() > 0,
            any == exists|j: int| 0 <= j < i && crate::text::is_alnum(#[trigger] p@[j]),
            forall|j: int| 0 <= j < i ==> (crate::text::is_alnum(#[trigger] p@[j]) || p@[j] == '_' || p@[j] == '-'),
        decreases p@.len() - i,
    {
        let a = crate::text::is_alphanumeric(p[i]);
        if !a && p[i] != '_' && p[i] != '-' {
            return false;
        }
        if a {
            any = true;
        }
        i = i + 1;
    }
    any
}

impl LettaId {
    /// Create a new ID with a prefix.
    pub fn new_prefixed(prefix: &str, uuid: u128) -> (r: Self)
        ensures
            r@ == (LettaIdView { prefix: Some(prefix@), uuid }),
    {
        LettaId { prefix: Some(prefix.to_string()), uuid }
    }

    /// Create a new ID without a prefix (bare UUID).
    pub fn new_bare(uuid: u128) -> (r: Self)
        ensures
            r@ == (LettaIdView { prefix: None, uuid }),
    {
        LettaId { prefix: None, uuid }
    }

    /// Get the prefix, if any.
    pub fn prefix(&self) -> (r: Option<&str>)
        ensures
            crate::error::opt_str_view(r) == self@.prefix,
    {
        match &self.prefix {
            Some(p) => Some(p.as_str()),
            None => None,
        }
    }

    /// Get the UUID part, as its 128-bit value.
    pub fn uuid(&self) -> (r: u128)
        ensures
            r == self@.uuid,
    {
        self.uuid
    }

    /// Check if this is a bare UUID (no prefix).
    pub fn is_bare(&self) -> (r: bool)
        ensures
            r == (self@.prefix is None),
    {
        self.prefix.is_none()
    }

    /// Convert to string representation.
    ///
    /// The text of an identifier that is bare, or whose prefix is a valid ASCII
    /// prefix, parses back to the same identifier.
    pub fn as_str(&self) -> (r: String)
        ensures
            r@ == id_text(self@),
            text_roundtrips(self@) ==> letta_id_parse(r@) == Some(self@) && !letta_id_cuts_off_boundary(r@),
    {
        let u = uuid_to_string(self.uuid);
        proof {
            lemma_uuid_text_ascii(self.uuid);
        }
        match &self.prefix {
            Some(p) => {
                let mut v: Vec<char> = Vec::new();
                crate::text::push_str(&mut v, p.as_str());
                v.push('-');
                crate::text::push_str(&mut v, u.as_str());
                proof {
                    if text_roundtrips(self@) {
                        lemma_prefixed_text_parses(p@, u@, self.uuid);
                    }
                }
                crate::text::string_of(&v)
            },
            None => u,
        }
    }

    /// The identifier's display text (same as [`LettaId::as_str`]).
    pub fn to_string(&self) -> (r: String)
        ensures
            r@ == id_text(self@),
    {
        self.as_str()
    }

    /// Parses an identifier: a bare UUID, or a prefix, `-` and a UUID.
    pub fn from_str(s: &str) -> (r: Result<LettaId, LettaIdError>)
        requires
            !letta_id_cuts_off_boundary(s@),
        ensures
            match letta_id_parse(s@) {
                Some(id) => r matches Ok(x) && x@ == id,
                None => r matches Err(LettaIdError::InvalidFormat(t)) && t@ == s@,
            },
    {
        if let Some(u) = uuid_parse(s) {
            return Ok(LettaId::new_bare(u));
        }
        let cs = crate::text::chars_of(s);
        proof {
            assert(cs@.take(cs@.len() as int) == cs@);
        }
        let b = crate::text::byte_len_prefix(&cs, cs.len());
        if b > 36 {
            let us = b - 36;
            if us - 1 < cs.len() && cs[us - 1] == '-' {
                match crate::text::char_index_of_byte_exec(&cs, us) {
                    Some(k1) => {
                        proof {
                            crate::text::lemma_char_index_of_byte_bound(cs@, us as int);
                        }
                        let pot = crate::text::slice_to_vec(&cs, k1, cs.len());
                        assert(pot@ == cs@.skip(k1 as int));
                        let pot_s = crate::text::string_of(&pot);
                        if let Some(u) = uuid_parse(pot_s.as_str()) {
                            match crate::text::char_index_of_byte_exec(&cs, us - 1) {
                                Some(k0) => {
                                    proof {
                                        crate::text::lemma_char_index_of_byte_bound(cs@, us - 1);
                                    }
                                    let prefix = crate::text::slice_to_vec(&cs, 0, k0);
                                    assert(prefix@ == cs@.take(k0 as int));
                                    if valid_prefix_exec(&prefix) {
                                        return Ok(LettaId {
                                            prefix: Some(crate::text::string_of(&prefix)),
                                            uuid: u,
                                        });
                                    }
                                },
                                None => {
                                    assert(false);
                                },
                            }
                        }
                    },
                    None => {
                        assert(false);
                    },
                }
            }
        }
        Err(LettaIdError::InvalidFormat(s.to_string()))
    }

    /// Like [`LettaId::from_str`], but `None` on the texts it would slice inside a character.
    pub fn parse(s: &str) -> (r: Option<Result<LettaId, LettaIdError>>)
        ensures
            r is None <==> letta_id_cuts_off_boundary(s@),
            r matches Some(res) ==> match letta_id_parse(s@) {
                Some(id) => res matches Ok(x) && x@ == id,
                None => res matches Err(LettaIdError::InvalidFormat(t)) && t@ == s@,
            },
    {
        if uuid_parse(s).is_some() {
            return Some(Self::from_str(s));
        }
        let cs = crate::text::chars_of(s);
        proof {
            assert(cs@.take(cs@.len() as int) == cs@);
        }
        let b = crate::text::byte_len_prefix(&cs, cs.len());
        if b > 36 && b - 37 < cs.len() && cs[b - 37] == '-' {
            match crate::text::char_index_of_byte_exec(&cs, b - 36) {
                None => {
                    return None;
                },
                Some(k1) => {
                    proof {
                        crate::text::lemma_char_index_of_byte_bound(cs@, b - 36);
                    }
                    let pot = crate::text::slice_to_vec(&cs, k1, cs.len());
                    assert(pot@ == cs@.skip(k1 as int));
                    let pot_s = crate::text::string_of(&pot);
                    if uuid_parse(pot_s.as_str()).is_some()
                        && crate::text::char_index_of_byte_exec(&cs, b - 37).is_none() {
                        return None;
                    }
                },
            }
        }
        Some(Self::from_str(s))
    }
}

impl From<LettaId> for String {
    fn from(id: LettaId) -> (r: String)
        ensures
            r@ == id_text(id@),
    {
        id.as_str()
    }
}

impl vstd::std_specs::convert::FromSpecImpl<LettaId> for String {
    open spec fn obeys_from_spec() -> bool {
        false
    }

    open spec fn from_spec(id: LettaId) -> String {
        arbitrary()
    }
}

impl<'a> From<&'a LettaId> for String {
    fn from(id: &'a LettaId) -> (r: String)
        ensures
            r@ == id_text(id@),
    {
        id.as_str()
    }
}

impl<'a> vstd::std_specs::convert::FromSpecImpl<&'a LettaId> for String {
    open spec fn obeys_from_spec() -> bool {
        false
    }

    open spec fn from_spec(id: &'a LettaId) -> String {
        arbitrary()
    }
}

} // verus!

verus! {

/// The entries of a string map, as key and value texts.
pub open spec fn entry_views(e: Seq<(String, String)>) -> Seq<(Seq<char>, Seq<char>)> {
    e.map_values(|p: (String, String)| (p.0@, p.1@))
}

/// Index of `key` among the entries.
pub open spec fn key_index<A>(e: Seq<(Seq<char>, A)>, key: Seq<char>) -> Option<int> {
    if exists|i: int| 0 <= i < e.len() && (#[trigger] e[i]).0 == key {
        Some(choose|i: int| 0 <= i < e.len() && (#[trigger] e[i]).0 == key)
    } else {
        None
    }
}

/// No key occurs twice.
pub open spec fn keys_unique<A>(e: Seq<(Seq<char>, A)>) -> bool {
    forall|i: int, j: int| 0 <= i < e.len() && 0 <= j < e.len() && i != j ==> (#[trigger] e[i]).0 != (#[trigger] e[j]).0
}

/// The entries after inserting `key` with `value`: the key's value replaced where it is
/// present, else the entry appended.
pub open spec fn entries_insert<A>(e: Seq<(Seq<char>, A)>, key: Seq<char>, value: A) -> Seq<(Seq<char>, A)> {
    match key_index(e, key) {
        Some(i) => e.update(i, (key, value)),
        None => e.push((key, value)),
    }
}

/// The value of `key`, if present.
pub open spec fn entries_lookup<A>(e: Seq<(Seq<char>, A)>, key: Seq<char>) -> Option<A> {
    match key_index(e, key) {
        Some(i) => Some(e[i].1),
        None => None,
    }
}

/// A map from strings to strings.
#[derive(Debug)]
pub struct StringMap {
    entries: Vec<(String, String)>,
}

impl View for StringMap {
    type V = Seq<(Seq<char>, Seq<char>)>;

    closed spec fn view(&self) -> Seq<(Seq<char>, Seq<char>)> {
        entry_views(self.entries@)
    }
}

impl StringMap {
    /// No key occurs twice: every map keeps this.
    #[verifier::type_invariant]
    pub closed spec fn no_duplicate_keys(&self) -> bool {
        keys_unique(entry_views(self.entries@))
    }

    /// The map is well formed: no key occurs twice.
    pub open spec fn wf(&self) -> bool {
        keys_unique(self@)
    }


    /// An empty map.
    pub fn new() -> (r: Self)
        ensures
            r@ == Seq::<(Seq<char>, Seq<char>)>::empty(),
            r.wf(),
    {
        let r = StringMap { entries: Vec::new() };
        assert(r@ =~= Seq::<(Seq<char>, Seq<char>)>::empty());
        r
    }

    /// Number of entries.
    pub fn len(&self) -> (r: usize)
        ensures
            r == self@.len(),
    {
        self.entries.len()
    }

    /// Whether the map is empty.
    pub fn is_empty(&self) -> (r: bool)
        ensures
            r == (self@.len() == 0),
    {
        self.entries.len() == 0
    }

    /// The entries, key and value, in insertion order.
    pub fn entries(&self) -> (r: &Vec<(String, String)>)
        ensures
            entry_views(r@) == self@,
    {
        &self.entries
    }

    fn index_of(&self, key: &str) -> (r: Option<usize>)
        requires
            self.wf(),
        ensures
            match r {
                Some(i) => key_index(self@, key@) == Some(i as int) && i < self@.len(),
                None => key_index(self@, key@) is None,
            },
    {
        let kk = crate::text::chars_of(key);
        let mut i: usize = 0;
        while i < self.entries.len()
            invariant
                i <= self.entries@.len(),
                self@.len() == self.entries@.len(),
                self.wf(),
                kk@ == key@,
                forall|j: int| 0 <= j < i ==> (#[trigger] self@[j]).0 != key@,
            decreases self.entries@.len() - i,
        {
            assert(self@[i as int] == (self.entries@[i as int].0@, self.entries@[i as int].1@));
            let k = crate::text::chars_of(self.entries[i].0.as_str());
            if crate::text::chars_eq(&k, &kk) {
                assert(self@[i as int].0 == key@);
                let ghost c = choose|j: int| 0 <= j < self@.len() && (#[trigger] self@[j]).0 == key@;
                assert(c == i as int);
                return Some(i);
            }
            i = i + 1;
        }
        None
    }

    /// The value of `key`, if present.
    pub fn get(&self, key: &str) -> (r: Option<&String>)
        ensures
            crate::json::opt_string_view(match r {
                Some(s) => Some(*s),
                None => None,
            }) == entries_lookup(self@, key@),
    {
        proof {
            use_type_invariant(self);
        }
        match self.index_of(key) {
            Some(i) => {
                assert(self@[i as int] == (self.entries@[i as int].0@, self.entries@[i as int].1@));
                Some(&self.entries[i].1)
            },
            None => None,
        }
    }

    /// Inserts `value` under `key`, replacing the key's value if it is present.
    pub fn insert(&mut self, key: String, value: String)
        ensures
            final(self)@ == entries_insert(old(self)@, key@, value@),
            final(self).wf(),
    {
        proof {
            use_type_invariant(&*self);
        }
        let ghost before = self@;
        let ghost kv = key@;
        let ghost vv = value@;
        let idx = self.index_of(key.as_str());
        let mut entries: Vec<(String, String)> = Vec::new();
        std::mem::swap(&mut entries, &mut self.entries);
        assert(entry_views(entries@) == before);
        match idx {
            Some(i) => {
                entries.set(i, (key, value));
                assert(entry_views(entries@) =~= before.update(i as int, (kv, vv)));
            },
            None => {
                entries.push((key, value));
                assert(entry_views(entries@) =~= before.push((kv, vv)));
            },
        }
        assert(keys_unique(entry_views(entries@)));
        self.entries = entries;
    }
}

impl Clone for StringMap {
    fn clone(&self) -> (r: Self)
        ensures
            r@ == self@,
    {
        let mut entries: Vec<(String, String)> = Vec::new();
        let mut i: usize = 0;
        while i < self.entries.len()
            invariant
                i <= self.entries@.len(),
                entries@.len() == i,
                forall|j: int| 0 <= j < i ==> (#[trigger] entries@[j]).0@ == self.entries@[j].0@
                    && entries@[j].1@ == self.entries@[j].1@,
            decreases self.entries@.len() - i,
        {
            let e = (self.entries[i].0.clone(), self.entries[i].1.clone());
            entries.push(e);
            i = i + 1;
        }
        proof {
            use_type_invariant(self);
        }
        assert(entry_views(entries@) =~= self@);
        StringMap { entries }
    }
}

/// Law: after inserting a key into a [`StringMap`] or [`Metadata`], looking it up gives
/// the inserted value, and every other key keeps its value; the map stays free of
/// duplicate keys.
pub proof fn law_keyed_insert_lookup<A>(e: Seq<(Seq<char>, A)>, key: Seq<char>, value: A, other: Seq<char>)
    requires
        keys_unique(e),
        other != key,
    ensures
        entries_lookup(entries_insert(e, key, value), key) == Some(value),
        entries_lookup(entries_insert(e, key, value), other) == entries_lookup(e, other),
        keys_unique(entries_insert(e, key, value)),
{
    let n = entries_insert(e, key, value);
    match key_index(e, key) {
        Some(i) => {
            assert(n[i].0 == key);
            let c = choose|j: int| 0 <= j < n.len() && (#[trigger] n[j]).0 == key;
            assert(c == i);
            match key_index(e, other) {
                Some(o) => {
                    assert(n[o].0 == other);
                    let c2 = choose|j: int| 0 <= j < n.len() && (#[trigger] n[j]).0 == other;
                    assert(c2 == o);
                },
                None => {
                    assert forall|j: int| 0 <= j < n.len() implies (#[trigger] n[j]).0 != other by {
                        if j != i {
                            assert(n[j] == e[j]);
                        }
                    }
                },
            }
        },
        None => {
            assert(n[e.len() as int].0 == key);
            let c = choose|j: int| 0 <= j < n.len() && (#[trigger] n[j]).0 == key;
            assert(c == e.len());
            match key_index(e, other) {
                Some(o) => {
                    assert(n[o].0 == other);
                    let c2 = choose|j: int| 0 <= j < n.len() && (#[trigger] n[j]).0 == other;
                    assert(c2 == o);
                },
                None => {
                    assert forall|j: int| 0 <= j < n.len() implies (#[trigger] n[j]).0 != other by {
                        if j < e.len() {
                            assert(n[j] == e[j]);
                        }
                    }
                },
            }
        },
    }
}

} // verus!

verus! {

/// The entries of a metadata map, as key text and JSON value.
pub open spec fn metadata_views(e: Seq<(String, crate::json::JsonDoc)>) -> Seq<(Seq<char>, crate::json::JsonDocView)> {
    e.map_values(|p: (String, crate::json::JsonDoc)| (p.0@, p.1@))
}

/// Generic metadata for resources: arbitrary keys with JSON values.
#[derive(Debug)]
pub struct Metadata {
    data: Vec<(String, crate::json::JsonDoc)>,
}

impl View for Metadata {
    type V = Seq<(Seq<char>, crate::json::JsonDocView)>;

    closed spec fn view(&self) -> Seq<(Seq<char>, crate::json::JsonDocView)> {
        metadata_views(self.data@)
    }
}

impl Metadata {
    /// No key occurs twice: every map keeps this.
    #[verifier::type_invariant]
    pub closed spec fn no_duplicate_keys(&self) -> bool {
        keys_unique(metadata_views(self.data@))
    }

    /// The map is well formed: no key occurs twice.
    pub open spec fn wf(&self) -> bool {
        keys_unique(self@)
    }


    /// Create new empty metadata.
    pub fn new() -> (r: Self)
        ensures
            r@ == Seq::<(Seq<char>, crate::json::JsonDocView)>::empty(),
            r.wf(),
    {
        let r = Metadata { data: Vec::new() };
        assert(r@ =~= Seq::<(Seq<char>, crate::json::JsonDocView)>::empty());
        r
    }

    /// The entries, key and value, in insertion order.
    pub fn entries(&self) -> (r: &Vec<(String, crate::json::JsonDoc)>)
        ensures
            metadata_views(r@) == self@,
    {
        &self.data
    }

    fn index_of(&self, key: &str) -> (r: Option<usize>)
        requires
            self.wf(),
        ensures
            match r {
                Some(i) => key_index(self@, key@) == Some(i as int) && i < self@.len(),
                None => key_index(self@, key@) is None,
            },
    {
        let kk = crate::text::chars_of(key);
        let mut i: usize = 0;
        while i < self.data.len()
            invariant
                i <= self.data@.len(),
                self@.len() == self.data@.len(),
                self.wf(),
                kk@ == key@,
                forall|j: int| 0 <= j < i ==> (#[trigger] self@[j]).0 != key@,
            decreases self.data@.len() - i,
        {
            assert(self@[i as int] == (self.data@[i as int].0@, self.data@[i as int].1@));
            let k = crate::text::chars_of(self.data[i].0.as_str());
            if crate::text::chars_eq(&k, &kk) {
                let ghost c = choose|j: int| 0 <= j < self@.len() && (#[trigger] self@[j]).0 == key@;
                assert(c == i as int);
                return Some(i);
            }
            i = i + 1;
        }
        None
    }

    /// Insert a key-value pair, replacing the key's value if it is present.
    pub fn insert(&mut self, key: String, value: crate::json::JsonDoc)
        ensures
            final(self)@ == entries_insert(old(self)@, key@, value@),
            final(self).wf(),
    {
        proof {
            use_type_invariant(&*self);
        }
        let ghost before = self@;
        let ghost kv = key@;
        let ghost vv = value@;
        let idx = self.index_of(key.as_str());
        let mut data: Vec<(String, crate::json::JsonDoc)> = Vec::new();
        std::mem::swap(&mut data, &mut self.data);
        assert(metadata_views(data@) == before);
        match idx {
            Some(i) => {
                data.set(i, (key, value));
                assert(metadata_views(data@) =~= before.update(i as int, (kv, vv)));
            },
            None => {
                data.push((key, value));
                assert(metadata_views(data@) =~= before.push((kv, vv)));
            },
        }
        assert(keys_unique(metadata_views(data@)));
        self.data = data;
    }

    /// Get a value by key.
    pub fn get(&self, key: &str) -> (r: Option<&crate::json::JsonDoc>)
        ensures
            match r {
                Some(d) => entries_lookup(self@, key@) == Some(d@),
                None => entries_lookup(self@, key@) is None,
            },
    {
        proof {
            use_type_invariant(self);
        }
        match self.index_of(key) {
            Some(i) => {
                assert(self@[i as int] == (self.data@[i as int].0@, self.data@[i as int].1@));
                Some(&self.data[i].1)
            },
            None => None,
        }
    }

    /// Check if metadata is empty.
    pub fn is_empty(&self) -> (r: bool)
        ensures
            r == (self@.len() == 0),
    {
        self.data.len() == 0
    }
}

impl Clone for Metadata {
    fn clone(&self) -> (r: Self)
        ensures
            r@ == self@,
    {
        proof {
            use_type_invariant(self);
        }
        let mut data: Vec<(String, crate::json::JsonDoc)> = Vec::new();
        let mut i: usize = 0;
        while i < self.data.len()
            invariant
                i <= self.data@.len(),
                data@.len() == i,
                forall|j: int| 0 <= j < i ==> (#[trigger] data@[j]).0@ == self.data@[j].0@
                    && data@[j].1@ == self.data@[j].1@,
            decreases self.data@.len() - i,
        {
            data.push((self.data[i].0.clone(), self.data[i].1.clone()));
            i = i + 1;
        }
        assert(metadata_views(data@) =~= self@);
        Metadata { data }
    }
}

} // verus!
