//! The quotebook: saved quote records, the filter set a viewer may give, and
//! the rules that turn filters into one store query. The store itself runs
//! outside this crate; what is decided here is which conditions the query
//! carries and which records it may return.

use vstd::prelude::*;

verus! {

/// One row of the quotebook table.
#[derive(Debug, Clone, PartialEq, Eq, Structural)]
pub struct QuoteRecord {
    pub id: i64,
    pub message_id: u64,
    pub guild_id: u64,
    pub author_id: u64,
    /// When the quoted message was written, as seconds since the epoch.
    pub datetime: i64,
}

/// The filters a viewer may give when listing quotes. All optional; a guild
/// must be known before a query can be built.
#[derive(Debug, Clone, PartialEq, Eq, Structural)]
pub struct EntryFilters {
    pub message_id: Option<u64>,
    pub guild_id: Option<u64>,
    pub author_id: Option<u64>,
    pub datetime_start: Option<i64>,
    pub datetime_end: Option<i64>,
    pub limit: Option<u8>,
}

impl EntryFilters {
    /// No filters at all.
    pub fn new() -> (r: Self)
        ensures
            r == (EntryFilters {
                message_id: None,
                guild_id: None,
                author_id: None,
                datetime_start: None,
                datetime_end: None,
                limit: None,
            }),
    {
        EntryFilters {
            message_id: None,
            guild_id: None,
            author_id: None,
            datetime_start: None,
            datetime_end: None,
            limit: None,
        }
    }

    /// Keep only the quote of this message.
    pub fn message_id(self, message_id: u64) -> (r: Self)
        ensures
            r == (EntryFilters { message_id: Some(message_id), ..self }),
    {
        EntryFilters { message_id: Some(message_id), ..self }
    }

    /// Keep only quotes of this guild.
    pub fn guild_id(self, guild_id: u64) -> (r: Self)
        ensures
            r == (EntryFilters { guild_id: Some(guild_id), ..self }),
    {
        EntryFilters { guild_id: Some(guild_id), ..self }
    }

    /// Keep only quotes of this author.
    pub fn author_id(self, author_id: u64) -> (r: Self)
        ensures
            r == (EntryFilters { author_id: Some(author_id), ..self }),
    {
        EntryFilters { author_id: Some(author_id), ..self }
    }

    /// Keep only quotes written at or after this time.
    pub fn datetime_start(self, datetime: i64) -> (r: Self)
        ensures
            r == (EntryFilters { datetime_start: Some(datetime), ..self }),
    {
        EntryFilters { datetime_start: Some(datetime), ..self }
    }

    /// Keep only quotes written at or before this time.
    pub fn datetime_end(self, datetime: i64) -> (r: Self)
        ensures
            r == (EntryFilters { datetime_end: Some(datetime), ..self }),
    {
        EntryFilters { datetime_end: Some(datetime), ..self }
    }

    /// Return at most this many quotes.
    pub fn limit(self, limit: u8) -> (r: Self)
        ensures
            r == (EntryFilters { limit: Some(limit), ..self }),
    {
        EntryFilters { limit: Some(limit), ..self }
    }
}

impl Default for EntryFilters {
    fn default() -> (r: Self)
        ensures
            r == (EntryFilters {
                message_id: None,
                guild_id: None,
                author_id: None,
                datetime_start: None,
                datetime_end: None,
                limit: None,
            }),
    {
        EntryFilters::new()
    }
}

/// How many quotes a query returns when the viewer gives no limit.
pub const DEFAULT_QUOTE_LIMIT: u64 = 5;

/// One query against the quotebook table: the conditions it carries and the
/// most rows it returns, newest first.
#[derive(Debug, Clone, PartialEq, Eq, Structural)]
pub struct QuoteQuery {
    pub guild_id: u64,
    pub message_id: Option<u64>,
    pub author_id: Option<u64>,
    pub datetime_start: Option<i64>,
    pub datetime_end: Option<i64>,
    pub limit: u64,
}

/// An error from assembling a quotebook query.
#[derive(Debug, Clone, Copy, PartialEq, Eq, Structural)]
pub enum QuotebookError {
    /// No guild was known; quotes are only ever listed within one guild.
    MissingGuildId,
}

/// Turn the viewer's filters into one query. A guild is required; when a
/// message is named, the author and time filters are ignored; without a
/// limit, the default applies.
pub fn build_query(filters: &EntryFilters) -> (r: Result<QuoteQuery, QuotebookError>)
    ensures
        r is Err <==> filters.guild_id is None,
        r matches Err(e) ==> e == QuotebookError::MissingGuildId,
        r matches Ok(q) ==> filters.guild_id == Some(q.guild_id) && q.message_id
            == filters.message_id && (q.message_id is Some ==> q.author_id is None
            && q.datetime_start is None && q.datetime_end is None) && (q.message_id is None
            ==> q.author_id == filters.author_id && q.datetime_start == filters.datetime_start
            && q.datetime_end == filters.datetime_end) && q.limit == (match filters.limit {
            Some(l) => l as u64,
            None => DEFAULT_QUOTE_LIMIT,
        }),
{
    let guild_id = match filters.guild_id {
        Some(g) => g,
        None => {
            return Err(QuotebookError::MissingGuildId);
        },
    };
    let (author_id, datetime_start, datetime_end) = if filters.message_id.is_some() {
        (None, None, None)
    } else {
        (filters.author_id, filters.datetime_start, filters.datetime_end)
    };
    let limit: u64 = match filters.limit {
        Some(l) => l as u64,
        None => DEFAULT_QUOTE_LIMIT,
    };
    Ok(
        QuoteQuery {
            guild_id,
            message_id: filters.message_id,
            author_id,
            datetime_start,
            datetime_end,
            limit,
        },
    )
}

/// Whether one record satisfies every condition a query carries.
pub open spec fn spec_entry_matches(q: QuoteQuery, e: QuoteRecord) -> bool {
    &&& e.guild_id == q.guild_id
    &&& match q.message_id {
        Some(m) => e.message_id == m,
        None => true,
    }
    &&& match q.author_id {
        Some(a) => e.author_id == a,
        None => true,
    }
    &&& match q.datetime_start {
        Some(t) => e.datetime >= t,
        None => true,
    }
    &&& match q.datetime_end {
        Some(t) => e.datetime <= t,
        None => true,
    }
}

/// The longest prefix of the text before its first newline.
pub open spec fn spec_first_line(s: Seq<char>) -> Seq<char>
    decreases s.len(),
{
    if s.len() == 0 {
        s
    } else if s[0] == '\n' {
        Seq::empty()
    } else {
        seq![s[0]] + spec_first_line(s.skip(1))
    }
}

/// Whether the text has more than one line: a newline somewhere before its
/// last character. A single trailing newline does not count.
pub open spec fn spec_multiline(s: Seq<char>) -> bool {
    exists|i: int| 0 <= i < s.len() - 1 && #[trigger] s[i] == '\n'
}

/// The most characters a quote preview shows of the quoted message.
pub const PREVIEW_LIMIT: usize = 100;

/// Cut the text down to the preview limit, marking the cut with an ellipsis.
pub open spec fn spec_clip(t: Seq<char>) -> Seq<char> {
    if t.len() > PREVIEW_LIMIT {
        t.take(PREVIEW_LIMIT as int) + "..."@
    } else {
        t
    }
}

/// What a quote preview shows of the quoted message: only the first line
/// when there are several, and at most the preview limit of characters,
/// each cut marked with an ellipsis.
pub open spec fn spec_preview(s: Seq<char>) -> Seq<char> {
    spec_clip(
        if spec_multiline(s) {
            spec_first_line(s) + "..."@
        } else {
            s
        },
    )
}

/// When the first `p` characters hold no newline, the first line is exactly
/// that prefix, provided a newline follows it (or nothing does).
proof fn lemma_first_line_prefix(s: Seq<char>, p: int)
    requires
        0 <= p <= s.len(),
        forall|j: int| 0 <= j < p ==> s[j] != '\n',
        p < s.len() ==> s[p] == '\n',
    ensures
        spec_first_line(s) == s.take(p),
    decreases p,
{
    if p == 0 {
        if s.len() == 0 {
            assert(spec_first_line(s) =~= s.take(0));
        } else {
            assert(s[0] == '\n');
            assert(spec_first_line(s) =~= s.take(0));
        }
    } else {
        assert(s[0] != '\n');
        lemma_first_line_prefix(s.skip(1), p - 1);
        assert(s.take(p) =~= seq![s[0]] + s.skip(1).take(p - 1));
    }
}

/// The content a quote preview shows of the quoted message.
pub fn preview_content(content: &str) -> (r: String)
    ensures
        r@ == spec_preview(content@),
{
    let cs = crate::text::str_to_chars(content);
    let n = cs.len();
    let mut first_nl: Option<usize> = None;
    let mut i: usize = 0;
    while i < n
        invariant
            i <= n,
            n == content@.len(),
            cs@ == content@,
            match first_nl {
                Some(p) => p < i && content@[p as int] == '\n' && (forall|j: int|
                    0 <= j < p ==> content@[j] != '\n'),
                None => forall|j: int| 0 <= j < i ==> content@[j] != '\n',
            },
        decreases n - i,
    {
        if cs[i] == '\n' && first_nl.is_none() {
            first_nl = Some(i);
        }
        i = i + 1;
    }
    let mut out: Vec<char>;
    match first_nl {
        Some(p) if p + 1 < n => {
            proof {
                assert(spec_multiline(content@));
                lemma_first_line_prefix(content@, p as int);
            }
            out = crate::text::str_to_chars(content);
            out.truncate(p);
            out.push('.');
            out.push('.');
            out.push('.');
            proof {
                reveal_strlit("...");
                assert("..."@ =~= seq!['.', '.', '.']);
                assert(out@ =~= spec_first_line(content@) + "..."@);
            }
        },
        _ => {
            proof {
                assert(!spec_multiline(content@)) by {
                    if first_nl is Some {
                        assert(forall|j: int|
                            0 <= j < content@.len() - 1 ==> #[trigger] content@[j] != '\n' || j
                                == first_nl->0);
                    }
                }
            }
            out = cs;
        },
    }
    let ghost before_clip = out@;
    if out.len() > PREVIEW_LIMIT {
        out.truncate(PREVIEW_LIMIT);
        out.push('.');
        out.push('.');
        out.push('.');
        proof {
            reveal_strlit("...");
            assert("..."@ =~= seq!['.', '.', '.']);
            assert(out@ =~= before_clip.take(PREVIEW_LIMIT as int) + "..."@);
        }
    }
    crate::text::chars_to_string(&out)
}

/// Whether one record satisfies every condition a query carries.
pub fn entry_matches(q: &QuoteQuery, e: &QuoteRecord) -> (r: bool)
    ensures
        r == spec_entry_matches(*q, *e),
{
    if e.guild_id != q.guild_id {
        return false;
    }
    if let Some(m) = q.message_id {
        if e.message_id != m {
            return false;
        }
    }
    if let Some(a) = q.author_id {
        if e.author_id != a {
            return false;
        }
    }
    if let Some(t) = q.datetime_start {
        if e.datetime < t {
            return false;
        }
    }
    if let Some(t) = q.datetime_end {
        if e.datetime > t {
            return false;
        }
    }
    true
}

} // verus!
