//! Connection-string classification.
//!
//! A connection string is classified syntactically, with no I/O: a string
//! with the database scheme prefix is a database connection, otherwise the
//! recognized file extensions are tried in a fixed priority order, and the
//! first match wins. A string that matches no rule is rejected with a
//! message that carries the original input.
//!
//! The recognized line-delimited record extension is `.ndjson`; a plain
//! `.json` path is not recognized.

use vstd::prelude::*;
use vstd::string::StrSliceExecFns;
use vstd::string::StringExecFns;

verus! {

/// A classified connection descriptor: exactly one variant is constructed
/// per accepted input string.
#[derive(Debug, Clone)]
pub enum DatasetConn {
    /// A database connection string, beginning with `postgres://`.
    Postgres(String),
    /// A path to a delimited-text file, ending in `.csv`.
    Csv(String),
    /// A path to a columnar file, ending in `.parquet`.
    Parquet(String),
    /// A path to a line-delimited record file, ending in `.ndjson`.
    NdJson(String),
}

/// The scheme prefix that marks a database connection string.
pub open spec fn db_prefix() -> Seq<char> {
    "postgres://"@
}

/// The extension of a delimited-text file.
pub open spec fn csv_suffix() -> Seq<char> {
    ".csv"@
}

/// The extension of a columnar file.
pub open spec fn parquet_suffix() -> Seq<char> {
    ".parquet"@
}

/// The extension of a line-delimited record file.
pub open spec fn ndjson_suffix() -> Seq<char> {
    ".ndjson"@
}

pub open spec fn has_db_scheme(s: Seq<char>) -> bool {
    db_prefix().is_prefix_of(s)
}

pub open spec fn has_csv_ext(s: Seq<char>) -> bool {
    csv_suffix().is_suffix_of(s)
}

pub open spec fn has_parquet_ext(s: Seq<char>) -> bool {
    parquet_suffix().is_suffix_of(s)
}

pub open spec fn has_ndjson_ext(s: Seq<char>) -> bool {
    ndjson_suffix().is_suffix_of(s)
}

/// The outcome of classifying one string: one of the four descriptor
/// shapes, or rejection.
#[derive(PartialEq, Eq, Structural, Clone, Copy, Debug)]
pub enum Classification {
    Database,
    DelimitedFile,
    ColumnarFile,
    RecordFile,
    Unrecognized,
}

/// Classification as a total function of the input: the database scheme is
/// checked first, then each extension in a fixed order, first match wins.
/// Every input is mapped to exactly one outcome.
pub open spec fn classification(s: Seq<char>) -> Classification {
    if has_db_scheme(s) {
        Classification::Database
    } else if has_csv_ext(s) {
        Classification::DelimitedFile
    } else if has_parquet_ext(s) {
        Classification::ColumnarFile
    } else if has_ndjson_ext(s) {
        Classification::RecordFile
    } else {
        Classification::Unrecognized
    }
}

/// The message carried by a rejection.
pub open spec fn invalid_message(s: Seq<char>) -> Seq<char> {
    "Invalid connection string: "@ + s
}

impl DatasetConn {
    /// The outcome this descriptor stands for.
    pub open spec fn classification(&self) -> Classification {
        match self {
            DatasetConn::Postgres(_) => Classification::Database,
            DatasetConn::Csv(_) => Classification::DelimitedFile,
            DatasetConn::Parquet(_) => Classification::ColumnarFile,
            DatasetConn::NdJson(_) => Classification::RecordFile,
        }
    }

    /// The connection string the descriptor carries.
    pub open spec fn conn_str(&self) -> Seq<char> {
        match self {
            DatasetConn::Postgres(s) => s@,
            DatasetConn::Csv(s) => s@,
            DatasetConn::Parquet(s) => s@,
            DatasetConn::NdJson(s) => s@,
        }
    }

    /// The variant invariant: the carried string has exactly the shape
    /// the variant claims under the fixed classification order.
    pub open spec fn valid(&self) -> bool {
        self.classification() == classification(self.conn_str())
    }
}

/// Whether `p` is a prefix of `s`, by character comparison.
fn str_has_prefix(s: &str, p: &str) -> (r: bool)
    ensures
        r == p@.is_prefix_of(s@),
{
    let n = p.unicode_len();
    let m = s.unicode_len();
    if n > m {
        return false;
    }
    let mut i: usize = 0;
    while i < n
        invariant
            i <= n,
            n == p@.len(),
            m == s@.len(),
            n <= m,
            forall|j: int| 0 <= j < i ==> s@[j] == p@[j],
        decreases n - i,
    {
        if s.get_char(i) != p.get_char(i) {
            assert(s@.subrange(0, n as int)[i as int] == s@[i as int]);
            return false;
        }
        i += 1;
    }
    assert(p@ =~= s@.subrange(0, n as int));
    true
}

/// Whether `p` is a suffix of `s`, by character comparison.
fn str_has_suffix(s: &str, p: &str) -> (r: bool)
    ensures
        r == p@.is_suffix_of(s@),
{
    let n = p.unicode_len();
    let m = s.unicode_len();
    if n > m {
        return false;
    }
    let d = m - n;
    let mut i: usize = 0;
    while i < n
        invariant
            i <= n,
            n == p@.len(),
            m == s@.len(),
            n <= m,
            d == m - n,
            forall|j: int| 0 <= j < i ==> s@[d + j] == p@[j],
        decreases n - i,
    {
        if s.get_char(d + i) != p.get_char(i) {
            assert(s@.subrange(d as int, m as int)[i as int] == s@[d + i]);
            return false;
        }
        i += 1;
    }
    assert(p@ =~= s@.subrange(d as int, m as int));
    true
}

/// Classify a connection string.
///
/// Returns the descriptor whose shape the input matches, carrying the
/// input itself; a string that matches no rule is rejected with the
/// message `Invalid connection string: <input>`. Purely syntactic: the
/// path is not touched, so a command can be built before any backend or
/// file system is reachable.
pub fn verify_conn_str(conn_str: &str) -> (r: Result<DatasetConn, String>)
    ensures
        r is Ok <==> classification(conn_str@) != Classification::Unrecognized,
        r matches Ok(c) ==> c.classification() == classification(conn_str@) && c.conn_str()
            == conn_str@ && c.valid(),
        r matches Err(e) ==> e@ == invalid_message(conn_str@),
{
    let owned = conn_str.to_owned();
    if str_has_prefix(conn_str, "postgres://") {
        return Ok(DatasetConn::Postgres(owned));
    }
    if str_has_suffix(conn_str, ".csv") {
        return Ok(DatasetConn::Csv(owned));
    }
    if str_has_suffix(conn_str, ".parquet") {
        return Ok(DatasetConn::Parquet(owned));
    }
    if str_has_suffix(conn_str, ".ndjson") {
        return Ok(DatasetConn::NdJson(owned));
    }
    Err("Invalid connection string: ".to_owned().concat(conn_str))
}

/// The database scheme is checked first, so a string with the scheme
/// prefix is classified as a database connection, whatever else its shape
/// suggests.
pub proof fn lemma_db_scheme_wins(s: Seq<char>)
    requires
        has_db_scheme(s),
    ensures
        classification(s) == Classification::Database,
{
}

/// A string without the database scheme is classified by its extension,
/// and each recognized extension picks out its own variant: the three
/// extensions exclude one another, since they end in different
/// characters. A string with none of them is rejected.
pub proof fn lemma_extension_classified(s: Seq<char>)
    requires
        !has_db_scheme(s),
    ensures
        has_csv_ext(s) ==> classification(s) == Classification::DelimitedFile,
        has_parquet_ext(s) ==> classification(s) == Classification::ColumnarFile,
        has_ndjson_ext(s) ==> classification(s) == Classification::RecordFile,
        !has_csv_ext(s) && !has_parquet_ext(s) && !has_ndjson_ext(s) ==> classification(s)
            == Classification::Unrecognized,
{
    reveal_strlit(".csv");
    reveal_strlit(".parquet");
    reveal_strlit(".ndjson");
    let l = s.len() as int;
    if has_csv_ext(s) {
        assert(s[l - 1] == csv_suffix()[3]);
    }
    if has_parquet_ext(s) {
        assert(s[l - 1] == parquet_suffix()[7]);
    }
    if has_ndjson_ext(s) {
        assert(s[l - 1] == ndjson_suffix()[6]);
    }
}

/// Classification is total and mutually exclusive: every input falls
/// under exactly one outcome, characterized here. It is deterministic by
/// construction, being a function of the input sequence alone.
pub proof fn lemma_classification_total(s: Seq<char>)
    ensures
        classification(s) == Classification::Database <==> has_db_scheme(s),
        classification(s) == Classification::DelimitedFile <==> !has_db_scheme(s) && has_csv_ext(
            s,
        ),
        classification(s) == Classification::ColumnarFile <==> !has_db_scheme(s) && !has_csv_ext(s)
            && has_parquet_ext(s),
        classification(s) == Classification::RecordFile <==> !has_db_scheme(s) && !has_csv_ext(s)
            && !has_parquet_ext(s) && has_ndjson_ext(s),
        classification(s) == Classification::Unrecognized <==> !has_db_scheme(s) && !has_csv_ext(s)
            && !has_parquet_ext(s) && !has_ndjson_ext(s),
{
}

} // verus!
