//! Parameters of the read requests that outside consumers make: defaults,
//! caps, filters and pagination.

use vstd::prelude::*;
use crate::text::str_eq;

verus! {

/// Order in which stored memories are listed.
#[derive(Debug, Clone, Copy, PartialEq, Eq, Structural)]
pub enum SearchSort {
    Recent,
    Importance,
    MostAccessed,
}

/// Kinds of stored memories.
#[derive(Debug, Clone, Copy, PartialEq, Eq, Structural)]
pub enum MemoryType {
    Fact,
    Preference,
    Decision,
    Identity,
    Event,
    Observation,
    Goal,
    Todo,
}

/// Largest number of timeline items one request returns.
pub const MAX_MESSAGE_LIMIT: i64 = 100;

/// Largest number of memories one listing returns.
pub const MAX_MEMORIES_LIMIT: i64 = 200;

/// Largest number of results one memory search returns.
pub const MAX_SEARCH_LIMIT: usize = 100;

/// Largest number of chat messages one request returns.
pub const MAX_CORTEX_CHAT_LIMIT: i64 = 200;

/// Largest number of cortex events one request returns.
pub const MAX_CORTEX_EVENTS_LIMIT: i64 = 200;

/// Timeline items returned when a request names no limit.
pub fn default_message_limit() -> (r: i64)
    ensures
        r == 20,
{
    20
}

/// Memories listed when a request names no limit.
pub fn default_memories_limit() -> (r: i64)
    ensures
        r == 50,
{
    50
}

/// The sort order of a listing that names none.
pub fn default_memories_sort() -> (r: String)
    ensures
        r@ == "recent"@,
{
    String::from_str("recent")
}

/// Search results returned when a request names no limit.
pub fn default_search_limit() -> (r: usize)
    ensures
        r == 20,
{
    20
}

/// Chat messages returned when a request names no limit.
pub fn default_cortex_chat_limit() -> (r: i64)
    ensures
        r == 50,
{
    50
}

/// Cortex events returned when a request names no limit.
pub fn default_cortex_events_limit() -> (r: i64)
    ensures
        r == 50,
{
    50
}

/// The sort order that a name selects; unknown names select `Recent`.
pub open spec fn sort_of(name: Seq<char>) -> SearchSort {
    if name == "importance"@ {
        SearchSort::Importance
    } else if name == "most_accessed"@ {
        SearchSort::MostAccessed
    } else {
        SearchSort::Recent
    }
}

/// Reads a sort order by name.
pub fn parse_sort(sort: &str) -> (r: SearchSort)
    ensures
        r == sort_of(sort@),
{
    if str_eq(sort, "importance") {
        SearchSort::Importance
    } else if str_eq(sort, "most_accessed") {
        SearchSort::MostAccessed
    } else {
        SearchSort::Recent
    }
}

/// The memory type that a name selects, if any.
pub open spec fn memory_type_of(name: Seq<char>) -> Option<MemoryType> {
    if name == "fact"@ {
        Some(MemoryType::Fact)
    } else if name == "preference"@ {
        Some(MemoryType::Preference)
    } else if name == "decision"@ {
        Some(MemoryType::Decision)
    } else if name == "identity"@ {
        Some(MemoryType::Identity)
    } else if name == "event"@ {
        Some(MemoryType::Event)
    } else if name == "observation"@ {
        Some(MemoryType::Observation)
    } else if name == "goal"@ {
        Some(MemoryType::Goal)
    } else if name == "todo"@ {
        Some(MemoryType::Todo)
    } else {
        None
    }
}

/// Reads a memory type by name; unknown names give `None`.
pub fn parse_memory_type(type_str: &str) -> (r: Option<MemoryType>)
    ensures
        r == memory_type_of(type_str@),
{
    if str_eq(type_str, "fact") {
        Some(MemoryType::Fact)
    } else if str_eq(type_str, "preference") {
        Some(MemoryType::Preference)
    } else if str_eq(type_str, "decision") {
        Some(MemoryType::Decision)
    } else if str_eq(type_str, "identity") {
        Some(MemoryType::Identity)
    } else if str_eq(type_str, "event") {
        Some(MemoryType::Event)
    } else if str_eq(type_str, "observation") {
        Some(MemoryType::Observation)
    } else if str_eq(type_str, "goal") {
        Some(MemoryType::Goal)
    } else if str_eq(type_str, "todo") {
        Some(MemoryType::Todo)
    } else {
        None
    }
}

/// The optional type filter of a request: absent or unknown names filter
/// nothing.
pub fn memory_type_filter(type_str: &Option<String>) -> (r: Option<MemoryType>)
    ensures
        match type_str {
            Some(s) => r == memory_type_of(s@),
            None => r is None,
        },
{
    match type_str {
        Some(s) => parse_memory_type(s.as_str()),
        None => None,
    }
}

/// `limit`, capped at `cap`.
pub open spec fn capped(limit: int, cap: int) -> int {
    if limit < cap {
        limit
    } else {
        cap
    }
}

/// The number of timeline items to load for a requested limit.
pub fn message_limit(requested: i64) -> (r: i64)
    ensures
        r == capped(requested as int, MAX_MESSAGE_LIMIT as int),
{
    if requested < MAX_MESSAGE_LIMIT {
        requested
    } else {
        MAX_MESSAGE_LIMIT
    }
}

/// The number of chat messages to load for a requested limit.
pub fn cortex_chat_limit(requested: i64) -> (r: i64)
    ensures
        r == capped(requested as int, MAX_CORTEX_CHAT_LIMIT as int),
{
    if requested < MAX_CORTEX_CHAT_LIMIT {
        requested
    } else {
        MAX_CORTEX_CHAT_LIMIT
    }
}

/// The number of cortex events to load for a requested limit.
pub fn cortex_events_limit(requested: i64) -> (r: i64)
    ensures
        r == capped(requested as int, MAX_CORTEX_EVENTS_LIMIT as int),
{
    if requested < MAX_CORTEX_EVENTS_LIMIT {
        requested
    } else {
        MAX_CORTEX_EVENTS_LIMIT
    }
}

/// The number of results a memory search returns for a requested limit.
pub fn search_limit(requested: usize) -> (r: usize)
    ensures
        r == capped(requested as int, MAX_SEARCH_LIMIT as int),
{
    if requested < MAX_SEARCH_LIMIT {
        requested
    } else {
        MAX_SEARCH_LIMIT
    }
}

/// How many memories to fetch so that the page at `offset` of `limit`
/// items can be cut from the front: the capped limit plus the offset, held
/// at `i64::MAX`.
pub open spec fn fetch_limit_spec(limit: i64, offset: usize) -> int {
    let sum = capped(limit as int, MAX_MEMORIES_LIMIT as int) + offset as int;
    if sum <= i64::MAX {
        sum
    } else {
        i64::MAX as int
    }
}

/// How many memories to fetch for a page of `limit` items at `offset`.
pub fn memories_fetch_limit(limit: i64, offset: usize) -> (r: i64)
    ensures
        r == fetch_limit_spec(limit, offset),
{
    let capped_limit: i64 = if limit < MAX_MEMORIES_LIMIT {
        limit
    } else {
        MAX_MEMORIES_LIMIT
    };
    let sum: i128 = capped_limit as i128 + offset as i128;
    if sum > i64::MAX as i128 {
        i64::MAX
    } else {
        sum as i64
    }
}

/// A page cut from a fetched listing, with the size of the listing.
pub struct Page<T> {
    pub items: Vec<T>,
    pub total: usize,
}

/// Cuts the page that starts at `offset` from a fetched listing; `total`
/// counts the whole listing.
pub fn paginate<T>(all: Vec<T>, offset: usize) -> (r: Page<T>)
    ensures
        r.total == all@.len(),
        offset <= all@.len() ==> r.items@ == all@.skip(offset as int),
        offset > all@.len() ==> r.items@ == Seq::<T>::empty(),
{
    let total = all.len();
    let mut all = all;
    if offset >= total {
        return Page { items: Vec::new(), total };
    }
    let items = all.split_off(offset);
    Page { items, total }
}

/// Where an agent's entry stands in the list of configured agents.
#[derive(Debug, Clone, Copy, PartialEq, Eq, Structural)]
pub enum AgentSlot {
    /// The entry at this position has the agent's id.
    Existing(usize),
    /// No entry has it; a new one is appended.
    Append,
}

/// The entry id `o` is `id`.
pub open spec fn names(o: Option<String>, id: Seq<char>) -> bool {
    match o {
        Some(t) => t@ == id,
        None => false,
    }
}

/// Finds the first entry whose id is `agent_id` among the entries' ids
/// (`None` for an entry without one).
pub fn locate_agent_entry(ids: &Vec<Option<String>>, agent_id: &str) -> (r: AgentSlot)
    ensures
        match r {
            AgentSlot::Existing(i) => i < ids@.len() && names(ids@[i as int], agent_id@) && forall|
                j: int,
            |
                0 <= j < i ==> !names(#[trigger] ids@[j], agent_id@),
            AgentSlot::Append => forall|j: int|
                0 <= j < ids@.len() ==> !names(#[trigger] ids@[j], agent_id@),
        },
{
    let mut i: usize = 0;
    while i < ids.len()
        invariant
            i <= ids@.len(),
            forall|j: int| 0 <= j < i ==> !names(#[trigger] ids@[j], agent_id@),
        decreases ids@.len() - i,
    {
        match &ids[i] {
            Some(id) => {
                if str_eq(id.as_str(), agent_id) {
                    return AgentSlot::Existing(i);
                }
            },
            None => {},
        }
        i = i + 1;
    }
    AgentSlot::Append
}

/// A lower-case hexadecimal digit.
pub open spec fn is_lower_hex(c: char) -> bool {
    ('0' <= c && c <= '9') || ('a' <= c && c <= 'f')
}

/// A random (version 4) UUID in hyphenated lower-case form:
/// `xxxxxxxx-xxxx-4xxx-yxxx-xxxxxxxxxxxx` with `y` one of `8`, `9`, `a`, `b`.
pub open spec fn is_uuid_v4_text(s: Seq<char>) -> bool {
    &&& s.len() == 36
    &&& forall|i: int|
        0 <= i < 36 ==> if i == 8 || i == 13 || i == 18 || i == 23 {
            s[i] == '-'
        } else {
            is_lower_hex(#[trigger] s[i])
        }
    &&& s[14] == '4'
    &&& (s[19] == '8' || s[19] == '9' || s[19] == 'a' || s[19] == 'b')
}

/// Relies on `uuid::Uuid::new_v4` and the UUID's `Display`: a random
/// version-4 UUID (version nibble `4`, variant bits `10`), printed as 32
/// lower-case hex digits in groups of 8-4-4-4-12.
#[verifier::external_body]
fn new_uuid_v4_text() -> (r: String)
    ensures
        is_uuid_v4_text(r@),
{
    uuid::Uuid::new_v4().to_string()
}

/// The chat thread to load: the latest stored one, or a fresh random id
/// when none is stored yet.
pub fn thread_id_or_new(latest: Option<String>) -> (r: String)
    ensures
        match latest {
            Some(t) => r == t,
            None => is_uuid_v4_text(r@),
        },
{
    match latest {
        Some(t) => t,
        None => new_uuid_v4_text(),
    }
}

} // verus!
