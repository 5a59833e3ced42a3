//! The file-backed authenticator: credentials are read fresh from a TOML
//! store on every call, parsed into an ordered list of client records, and
//! compared against the claim; the first usable, matching record wins.

use vstd::prelude::*;
use crate::authentication::{Source, SourceView, Status};

verus! {

/// One client record of the credential store, as the store holds it: any of
/// the fields may be missing, and `valid_till` is kept as the raw integer of
/// the document: unix seconds, past once an obtainable clock reads beyond it
/// (a negative expiry precedes every obtainable clock).
pub struct ClientRecord {
    /// The `username` field, when present as a string.
    pub username: Option<String>,
    /// The `password` field, when present as a string.
    pub password: Option<String>,
    /// The `valid_till` field, when present as an integer: unix seconds.
    pub valid_till: Option<i64>,
}

/// The mathematical value of a [`ClientRecord`].
pub struct ClientRecordView {
    pub username: Option<Seq<char>>,
    pub password: Option<Seq<char>>,
    pub valid_till: Option<i64>,
}

impl View for ClientRecord {
    type V = ClientRecordView;

    open spec fn view(&self) -> ClientRecordView {
        ClientRecordView {
            username: match self.username {
                Some(u) => Some(u@),
                None => None,
            },
            password: match self.password {
                Some(p) => Some(p@),
                None => None,
            },
            valid_till: self.valid_till,
        }
    }
}

/// The client records that the credential store text parses to: `None` when
/// the text is not a TOML document holding a `client` array of tables, the
/// records of that array in file order otherwise. Parsing depends on the
/// text alone; the value of this function is fixed by the trusted contract
/// of the parsing call below.
pub uninterp spec fn toml_client_records(text: Seq<char>) -> Option<Seq<ClientRecordView>>;

/// The byte-exact standard base64 (with padding) encoding of
/// `"{username}:{password}"`, the value a Proxy-Basic claim must equal.
/// It depends on the two texts alone; its value is fixed by the trusted
/// contract of the encoding call below.
pub uninterp spec fn basic_token_of(username: Seq<char>, password: Seq<char>) -> Seq<char>;

/// The view of a parsed record list.
pub open spec fn spec_records_view(rs: Seq<ClientRecord>) -> Seq<ClientRecordView> {
    rs.map_values(|c: ClientRecord| c@)
}

/// Whether a record's expiry is present and in the past: the clock reads
/// beyond it, and a negative expiry precedes every obtainable clock. Without
/// an obtainable clock no record is expired.
pub open spec fn spec_record_expired(c: ClientRecordView, now: Option<u64>) -> bool {
    match (c.valid_till, now) {
        (Some(t), Some(n)) => t < 0 || (n as int) > (t as int),
        _ => false,
    }
}

/// Whether a record takes part in matching at all: both credential fields
/// present and the record not expired.
pub open spec fn spec_record_usable(c: ClientRecordView, now: Option<u64>) -> bool {
    &&& c.username is Some
    &&& c.password is Some
    &&& !spec_record_expired(c, now)
}

/// Whether a claim matches one record: a Proxy-Basic claim must equal the
/// record's basic token, an SNI claim must equal the username alone.
pub open spec fn spec_record_matches(c: ClientRecordView, claim: SourceView) -> bool {
    match claim {
        SourceView::ProxyBasic(s) => c.username matches Some(u) && c.password matches Some(p)
            && s == basic_token_of(u, p),
        SourceView::Sni(s) => c.username matches Some(u) && s == u,
    }
}

/// Whether some record of the list is usable and matches the claim. The
/// store awards the first such record, but as the decision is a yes or no,
/// first-match and any-match coincide.
pub open spec fn spec_any_match(rs: Seq<ClientRecordView>, claim: SourceView, now: Option<u64>) -> bool {
    exists|i: int|
        0 <= i < rs.len() && spec_record_usable(rs[i], now) && spec_record_matches(rs[i], claim)
}

/// The whole decision of the file-backed authenticator, given the store text
/// as it was read (`None` when unreadable) and the clock.
pub open spec fn spec_authenticate(
    content: Option<Seq<char>>,
    claim: SourceView,
    now: Option<u64>,
) -> Status {
    match content {
        None => Status::Reject,
        Some(text) => match toml_client_records(text) {
            None => Status::Reject,
            Some(rs) => if spec_any_match(rs, claim, now) {
                Status::Pass
            } else {
                Status::Reject
            },
        },
    }
}

/// The view of an optional borrowed text.
pub open spec fn spec_opt_text_view(s: Option<&str>) -> Option<Seq<char>> {
    match s {
        Some(t) => Some(t@),
        None => None,
    }
}

/// Relies on toml_edit's `DocumentMut` parser and its `Table::get`,
/// `Item::as_array_of_tables`, `Item::as_str` and `Item::as_integer`
/// accessors: the result is the `client` array of the parsed document, one
/// record per table in order, each field kept when present with the stated
/// type. Parsing depends on the text alone.
#[verifier::external_body]
fn parse_client_records(text: &str) -> (r: Option<Vec<ClientRecord>>)
    ensures
        match r {
            Some(v) => toml_client_records(text@) == Some(spec_records_view(v@)),
            None => toml_client_records(text@) is None,
        },
{
    let doc: toml_edit::DocumentMut = match text.parse() {
        Ok(d) => d,
        Err(_) => return None,
    };
    let clients = match doc.get("client").and_then(toml_edit::Item::as_array_of_tables) {
        Some(c) => c,
        None => return None,
    };
    Some(clients.iter().map(|c| ClientRecord {
        username: c.get("username").and_then(toml_edit::Item::as_str).map(str::to_owned),
        password: c.get("password").and_then(toml_edit::Item::as_str).map(str::to_owned),
        valid_till: c.get("valid_till").and_then(toml_edit::Item::as_integer),
    }).collect())
}

/// Relies on base64's standard engine (with padding) applied to the bytes of
/// `"{username}:{password}"`: the result depends on the two texts alone.
#[verifier::external_body]
fn basic_token(username: &str, password: &str) -> (r: String)
    ensures
        r@ == basic_token_of(username@, password@),
{
    base64::Engine::encode(
        &base64::engine::general_purpose::STANDARD,
        format!("{}:{}", username, password),
    )
}

/// The authenticator backed by a credential store file. The store is read
/// fresh on every call — revocation takes effect on the very next decision —
/// and the reading itself is the caller's: the decision procedures below take
/// the text as it was read, `None` when the read failed.
pub struct FileBasedAuthenticator {
    /// Path of the credential store the caller reads for each decision.
    pub credentials_file_path: String,
}

impl FileBasedAuthenticator {
    /// Remembers the path of the credential store.
    pub fn new(credentials_file_path: String) -> (r: Self)
        ensures
            r.credentials_file_path == credentials_file_path,
    {
        Self { credentials_file_path }
    }

    /// Relies on std's `SystemTime::now`: seconds since the unix epoch, or
    /// `None` when the system clock reads earlier than the epoch. Nothing is
    /// promised of the value; every decision below holds for any outcome.
    #[verifier::external_body]
    fn now_unix_ts() -> (r: Option<u64>) {
        std::time::SystemTime::now()
            .duration_since(std::time::UNIX_EPOCH)
            .ok()
            .map(|d| d.as_secs())
    }

    /// Whether a record's expiry has passed, exactly as the store spells it.
    fn record_expired(rec: &ClientRecord, now: Option<u64>) -> (r: bool)
        ensures
            r == spec_record_expired(rec@, now),
    {
        match (rec.valid_till, now) {
            (Some(t), Some(n)) => t < 0 || n > (t as u64),
            _ => false,
        }
    }

    /// Whether some record of the parsed store, in file order, is usable and
    /// matches the claim: the first such record wins, later ones are never
    /// reached, and a store without one rejects.
    pub fn is_valid_client(records: &Vec<ClientRecord>, source: &Source, now: Option<u64>) -> (r:
        bool)
        ensures
            r == spec_any_match(spec_records_view(records@), source@, now),
    {
        let ghost rsv = spec_records_view(records@);
        let mut i: usize = 0;
        while i < records.len()
            invariant
                0 <= i <= records.len(),
                rsv == spec_records_view(records@),
                forall|j: int|
                    0 <= j < i ==> !(spec_record_usable(rsv[j], now) && spec_record_matches(
                        rsv[j],
                        source@,
                    )),
            decreases records.len() - i,
        {
            let rec = &records[i];
            proof {
                assert(rsv[i as int] == records@[i as int]@);
            }
            let hit: bool = match (&rec.username, &rec.password) {
                (Some(u), Some(p)) => {
                    if Self::record_expired(rec, now) {
                        false
                    } else {
                        match source {
                            Source::ProxyBasic(s) => {
                                let expected = basic_token(u.as_str(), p.as_str());
                                expected == *s
                            },
                            Source::Sni(c) => *c == *u,
                        }
                    }
                },
                _ => false,
            };
            if hit {
                proof {
                    assert(spec_record_usable(rsv[i as int], now) && spec_record_matches(
                        rsv[i as int],
                        source@,
                    ));
                }
                return true;
            }
            i += 1;
        }
        false
    }

    /// The full decision over the store text as it was read (`None` when the
    /// read failed: universal reject) and the clock as it was obtained.
    pub fn authenticate_with_clock(content: Option<&str>, source: &Source, now: Option<u64>) -> (r:
        Status)
        ensures
            r == spec_authenticate(spec_opt_text_view(content), source@, now),
    {
        let text = match content {
            Some(t) => t,
            None => {
                return Status::Reject;
            },
        };
        match parse_client_records(text) {
            None => Status::Reject,
            Some(records) => {
                if Self::is_valid_client(&records, source, now) {
                    Status::Pass
                } else {
                    Status::Reject
                }
            },
        }
    }

    /// The decision the authenticator gives for a claim once the caller has
    /// read the store: the clock is obtained here, and whatever it read, the
    /// result is the one [`spec_authenticate`] fixes for that clock.
    pub fn authenticate_content(content: Option<&str>, source: &Source) -> (r: Status)
        ensures
            exists|now: Option<u64>|
                r == #[trigger] spec_authenticate(spec_opt_text_view(content), source@, now),
    {
        let now = Self::now_unix_ts();
        let r = Self::authenticate_with_clock(content, source, now);
        proof {
            assert(r == spec_authenticate(spec_opt_text_view(content), source@, now));
        }
        r
    }
}

/// Law: a Proxy-Basic claim that equals the basic token of some usable
/// record of the store authenticates; a claim that the token of no usable
/// record equals is rejected.
pub proof fn lemma_proxy_basic_claim_decides(
    text: Seq<char>,
    rs: Seq<ClientRecordView>,
    claim: Seq<char>,
    now: Option<u64>,
)
    requires
        toml_client_records(text) == Some(rs),
    ensures
        (exists|i: int|
            0 <= i < rs.len() && spec_record_usable(rs[i], now) && spec_record_matches(
                rs[i],
                SourceView::ProxyBasic(claim),
            )) ==> spec_authenticate(Some(text), SourceView::ProxyBasic(claim), now)
            == Status::Pass,
        (forall|i: int|
            0 <= i < rs.len() ==> !(spec_record_usable(rs[i], now) && spec_record_matches(
                rs[i],
                SourceView::ProxyBasic(claim),
            ))) ==> spec_authenticate(Some(text), SourceView::ProxyBasic(claim), now)
            == Status::Reject,
{
}

/// Law: a record whose `valid_till` is present and earlier than an obtainable
/// clock is excluded, and one without `valid_till` never expires.
pub proof fn lemma_expiry_rules(c: ClientRecordView, now: u64, clock: Option<u64>)
    ensures
        (c.valid_till matches Some(t) && (t as int) < (now as int)) ==> !spec_record_usable(
            c,
            Some(now),
        ),
        c.valid_till is None ==> !spec_record_expired(c, clock),
{
}

/// Law: with an unchanged store, an identical claim and the same clock, two
/// authentication decisions are identical.
pub proof fn lemma_authenticate_idempotent(
    content: Option<Seq<char>>,
    claim: SourceView,
    now: Option<u64>,
    r1: Status,
    r2: Status,
)
    requires
        r1 == spec_authenticate(content, claim, now),
        r2 == spec_authenticate(content, claim, now),
    ensures
        r1 == r2,
{
}

} // verus!
