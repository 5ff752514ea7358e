//! Alert rows, the documents synthesised from them, and the dedup key that
//! collapses them into groups.
use vstd::prelude::*;

verus! {

#[verifier::external_type_specification]
#[verifier::external_body]
pub struct ExValue(serde_json::Value);

/// The decimal digit character for `d < 10`.
pub open spec fn digit_char(d: nat) -> char {
    if d == 0 {
        '0'
    } else if d == 1 {
        '1'
    } else if d == 2 {
        '2'
    } else if d == 3 {
        '3'
    } else if d == 4 {
        '4'
    } else if d == 5 {
        '5'
    } else if d == 6 {
        '6'
    } else if d == 7 {
        '7'
    } else if d == 8 {
        '8'
    } else {
        '9'
    }
}

/// Decimal notation of `n`, without sign or leading zeros.
pub open spec fn decimal(n: nat) -> Seq<char>
    decreases n,
{
    if n < 10 {
        seq![digit_char(n)]
    } else {
        decimal(n / 10).push(digit_char(n % 10))
    }
}

/// Relies on `u64`'s `ToString`: the decimal notation of the number.
#[verifier::external_body]
pub(crate) fn u64_to_string(n: u64) -> (r: String)
    ensures
        r@ == decimal(n as nat),
{
    n.to_string()
}

/// One alert event as read from the events table.
pub struct AlertRow {
    pub rowid: u64,
    /// Nanoseconds since the epoch.
    pub timestamp: u64,
    pub escalated: bool,
    pub archived: bool,
    pub signature_id: u64,
    pub signature: String,
    pub severity: u64,
    pub action: String,
    pub app_proto: String,
    pub src_ip: String,
    pub dest_ip: String,
    /// The stored `tags` array; `None` where the document has none.
    pub tags: Option<Vec<String>>,
    pub host: Option<String>,
    pub http_hostname: Option<String>,
    pub dns: serde_json::Value,
    pub tls: serde_json::Value,
    pub quic: serde_json::Value,
}

/// The curated document shown for an alert group.
pub struct AlertSource {
    /// Nanoseconds since the epoch.
    pub timestamp: u64,
    pub tags: Vec<String>,
    pub src_ip: String,
    pub dest_ip: String,
    pub app_proto: String,
    pub signature: String,
    pub signature_id: u64,
    pub severity: u64,
    pub action: String,
    pub host: Option<String>,
    pub http_hostname: Option<String>,
    pub dns: serde_json::Value,
    pub tls: serde_json::Value,
    pub quic: serde_json::Value,
}

#[derive(Debug, PartialEq, Eq, Structural, Clone, Copy)]
pub struct AggAlertMetadata {
    pub count: u64,
    pub escalated_count: u64,
    pub min_timestamp: u64,
    pub max_timestamp: u64,
}

/// One deduplicated alert group.
pub struct AggAlert {
    /// The representative event's rowid, in decimal.
    pub id: String,
    pub source: AlertSource,
    pub metadata: AggAlertMetadata,
}

pub struct AlertsResult {
    pub events: Vec<AggAlert>,
    /// Set only when the streaming strategy stopped on its time budget.
    pub timed_out: bool,
    /// Informational timing in milliseconds.
    pub took: u64,
}

/// The tag added to the synthesised document of an archived event.
pub const ARCHIVED_TAG: &'static str = "evebox.archived";

pub open spec fn string_views(v: Seq<String>) -> Seq<Seq<char>> {
    v.map_values(|s: String| s@)
}

/// Dedup key: signature id in decimal, `:`, the length of the source IP in
/// decimal, `:`, then source IP and destination IP. The length makes the
/// key tell apart any two different triples.
pub open spec fn spec_dedup_key(signature_id: u64, src_ip: Seq<char>, dest_ip: Seq<char>) -> Seq<
    char,
> {
    decimal(signature_id as nat) + ":"@ + decimal(src_ip.len()) + ":"@ + src_ip + dest_ip
}

pub open spec fn row_key(r: AlertRow) -> Seq<char> {
    spec_dedup_key(r.signature_id, r.src_ip@, r.dest_ip@)
}

pub open spec fn alert_key(a: AggAlert) -> Seq<char> {
    spec_dedup_key(a.source.signature_id, a.source.src_ip@, a.source.dest_ip@)
}

/// The stored tags (none counting as empty) followed by the archived tag
/// when `archived` is set.
pub open spec fn enriched_tags(tags: Option<Vec<String>>, archived: bool) -> Seq<Seq<char>> {
    let base = match tags {
        Some(v) => string_views(v@),
        None => Seq::empty(),
    };
    if archived {
        base.push(ARCHIVED_TAG@)
    } else {
        base
    }
}

/// `s` is the document synthesised from `r`.
pub open spec fn synthesized_from(s: AlertSource, r: AlertRow) -> bool {
    &&& s.timestamp == r.timestamp
    &&& string_views(s.tags@) == enriched_tags(r.tags, r.archived)
    &&& s.src_ip == r.src_ip
    &&& s.dest_ip == r.dest_ip
    &&& s.app_proto == r.app_proto
    &&& s.signature == r.signature
    &&& s.signature_id == r.signature_id
    &&& s.severity == r.severity
    &&& s.action == r.action
    &&& s.host == r.host
    &&& s.http_hostname == r.http_hostname
    &&& s.dns == r.dns
    &&& s.tls == r.tls
    &&& s.quic == r.quic
}

/// The dedup key of an event.
pub fn dedup_key(signature_id: u64, src_ip: &str, dest_ip: &str) -> (r: String)
    ensures
        r@ == spec_dedup_key(signature_id, src_ip@, dest_ip@),
{
    let mut k = u64_to_string(signature_id);
    k.append(":");
    let n = src_ip.unicode_len();
    let len = u64_to_string(n as u64);
    k.append(len.as_str());
    k.append(":");
    k.append(src_ip);
    k.append(dest_ip);
    k
}

/// The tags of a synthesised document, built afresh from the stored ones,
/// which are left as they are.
pub fn enrich_tags(tags: &Option<Vec<String>>, archived: bool) -> (r: Vec<String>)
    ensures
        string_views(r@) == enriched_tags(*tags, archived),
{
    let mut r: Vec<String> = Vec::new();
    match tags {
        Some(v) => {
            let mut i: usize = 0;
            while i < v.len()
                invariant
                    i <= v.len(),
                    string_views(r@) == string_views(v@.take(i as int)),
                decreases v.len() - i,
            {
                r.push(v[i].clone());
                assert(string_views(v@.take(i as int + 1)) =~= string_views(
                    v@.take(i as int),
                ).push(v@[i as int]@));
                i = i + 1;
            }
            assert(v@.take(v@.len() as int) =~= v@);
        },
        None => {
            assert(string_views(r@) =~= Seq::empty());
        },
    }
    let ghost before = r@;
    if archived {
        r.push(String::from_str(ARCHIVED_TAG));
        assert(string_views(r@) =~= string_views(before).push(ARCHIVED_TAG@));
    }
    r
}

/// The curated document of `row`, its tags enriched.
pub fn synthesize_source(row: AlertRow) -> (r: AlertSource)
    ensures
        synthesized_from(r, row),
{
    let tags = enrich_tags(&row.tags, row.archived);
    AlertSource {
        timestamp: row.timestamp,
        tags,
        src_ip: row.src_ip,
        dest_ip: row.dest_ip,
        app_proto: row.app_proto,
        signature: row.signature,
        signature_id: row.signature_id,
        severity: row.severity,
        action: row.action,
        host: row.host,
        http_hostname: row.http_hostname,
        dns: row.dns,
        tls: row.tls,
        quic: row.quic,
    }
}

/// The synthesised tags hold the archived tag exactly when the event is
/// archived, provided the stored tags do not hold it already.
pub proof fn lemma_archived_tag_iff_archived(tags: Option<Vec<String>>, archived: bool)
    requires
        match tags {
            Some(v) => !string_views(v@).contains(ARCHIVED_TAG@),
            None => true,
        },
    ensures
        enriched_tags(tags, archived).contains(ARCHIVED_TAG@) <==> archived,
{
    let base = match tags {
        Some(v) => string_views(v@),
        None => Seq::<Seq<char>>::empty(),
    };
    if archived {
        assert(enriched_tags(tags, archived).last() == ARCHIVED_TAG@);
    } else {
        assert(enriched_tags(tags, archived) == base);
    }
}

/// Events that agree on signature id, source IP and destination IP share
/// one dedup key, whatever their timestamp, severity or tags.
pub proof fn lemma_dedup_key_ignores_other_fields(a: AlertRow, b: AlertRow)
    requires
        a.signature_id == b.signature_id,
        a.src_ip@ == b.src_ip@,
        a.dest_ip@ == b.dest_ip@,
    ensures
        row_key(a) == row_key(b),
{
}

proof fn lemma_decimal_digits(n: nat)
    ensures
        decimal(n).len() >= 1,
        n >= 10 ==> decimal(n).len() >= 2,
        forall|i: int| 0 <= i < decimal(n).len() ==> '0' <= #[trigger] decimal(n)[i] <= '9',
    decreases n,
{
    if n >= 10 {
        lemma_decimal_digits(n / 10);
        let d = decimal(n);
        assert forall|i: int| 0 <= i < d.len() implies '0' <= #[trigger] d[i] <= '9' by {
            if i < d.len() - 1 {
                assert(d[i] == decimal(n / 10)[i]);
            }
        }
    }
}

proof fn lemma_decimal_injective(a: nat, b: nat)
    requires
        decimal(a) == decimal(b),
    ensures
        a == b,
    decreases a,
{
    lemma_decimal_digits(a);
    lemma_decimal_digits(b);
    if a >= 10 && b >= 10 {
        assert(decimal(a).drop_last() =~= decimal(a / 10));
        assert(decimal(b).drop_last() =~= decimal(b / 10));
        lemma_decimal_injective(a / 10, b / 10);
        assert(decimal(a).last() == digit_char(a % 10));
        assert(decimal(b).last() == digit_char(b % 10));
    } else if a < 10 && b < 10 {
        assert(decimal(a)[0] == digit_char(a));
        assert(decimal(b)[0] == digit_char(b));
    }
}

/// If `d1 + ":" + r1 == d2 + ":" + r2` with `d1`, `d2` decimal notations,
/// then `d1 == d2` and `r1 == r2`.
proof fn lemma_split_at_colon(a: nat, r1: Seq<char>, b: nat, r2: Seq<char>)
    requires
        decimal(a) + ":"@ + r1 == decimal(b) + ":"@ + r2,
    ensures
        a == b,
        r1 == r2,
{
    reveal_strlit(":");
    lemma_decimal_digits(a);
    lemma_decimal_digits(b);
    let d1 = decimal(a);
    let d2 = decimal(b);
    let k = d1 + ":"@ + r1;
    assert(k[d1.len() as int] == ':');
    assert((d2 + ":"@ + r2)[d2.len() as int] == ':');
    if d1.len() < d2.len() {
        assert(k[d1.len() as int] == d2[d1.len() as int]);
    }
    if d2.len() < d1.len() {
        assert(k[d2.len() as int] == d1[d2.len() as int]);
    }
    assert(d1 =~= k.subrange(0, d1.len() as int));
    assert(d2 =~= k.subrange(0, d1.len() as int));
    lemma_decimal_injective(a, b);
    assert(r1 =~= k.subrange(d1.len() as int + 1, k.len() as int));
    assert(r2 =~= k.subrange(d1.len() as int + 1, k.len() as int));
}

/// Two triples share a dedup key exactly when they are equal.
pub proof fn lemma_dedup_key_injective(
    sid1: u64,
    src1: Seq<char>,
    dst1: Seq<char>,
    sid2: u64,
    src2: Seq<char>,
    dst2: Seq<char>,
)
    ensures
        spec_dedup_key(sid1, src1, dst1) == spec_dedup_key(sid2, src2, dst2) <==> (sid1 == sid2
            && src1 == src2 && dst1 == dst2),
{
    if spec_dedup_key(sid1, src1, dst1) == spec_dedup_key(sid2, src2, dst2) {
        let r1 = decimal(src1.len()) + ":"@ + src1 + dst1;
        let r2 = decimal(src2.len()) + ":"@ + src2 + dst2;
        assert(spec_dedup_key(sid1, src1, dst1) =~= decimal(sid1 as nat) + ":"@ + r1);
        assert(spec_dedup_key(sid2, src2, dst2) =~= decimal(sid2 as nat) + ":"@ + r2);
        lemma_split_at_colon(sid1 as nat, r1, sid2 as nat, r2);
        let t1 = src1 + dst1;
        let t2 = src2 + dst2;
        assert(r1 =~= decimal(src1.len()) + ":"@ + t1);
        assert(r2 =~= decimal(src2.len()) + ":"@ + t2);
        lemma_split_at_colon(src1.len(), t1, src2.len(), t2);
        assert(src1 =~= t1.subrange(0, src1.len() as int));
        assert(src2 =~= t2.subrange(0, src1.len() as int));
        assert(dst1 =~= t1.subrange(src1.len() as int, t1.len() as int));
        assert(dst2 =~= t2.subrange(src1.len() as int, t2.len() as int));
    }
}

} // verus!
