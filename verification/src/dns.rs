//! Site DNS zones: the records a sync stores, and the zone file written for
//! them.
use vstd::prelude::*;

use crate::cache::DnsRecordRow;
use crate::text::{chars_of, dec_int, dec_nat, join_path, path_join, push_i64, push_str, push_u64, string_of};

verus! {

/// The operations on a site's DNS zone.
pub struct DnsService;

pub struct DnsRecord {
    pub name: String,
    pub record_type: String,
    pub value: String,
    pub ttl: i64,
}

/// The time to live of a record that names none.
pub fn default_ttl() -> (t: i64)
    ensures
        t == 300,
{
    300
}

/// A DNSSEC delegation signer record.
pub struct DsRecord {
    pub key_tag: u16,
    pub algorithm: u8,
    pub digest_type: u8,
    pub digest: String,
}

pub struct SyncDnsRequest {
    pub records: Vec<DnsRecord>,
    pub dnssec_enabled: bool,
    pub ds_records: Vec<DsRecord>,
}

pub struct DnsZoneStatus {
    pub records: Vec<DnsRecord>,
    pub dnssec_enabled: bool,
    pub ds_records: Vec<DsRecord>,
}

/// The directory of a site's zone: `<data>/dns/<site>`.
pub open spec fn zone_dir_of(data_dir: Seq<char>, site_id: Seq<char>) -> Seq<char> {
    path_join(path_join(data_dir, "dns"@), site_id)
}

pub fn zone_dir(data_dir: &str, site_id: &str) -> (r: String)
    ensures
        r@ == zone_dir_of(data_dir@, site_id@),
{
    let d = join_path(chars_of(data_dir).as_slice(), chars_of("dns").as_slice());
    let z = join_path(d.as_slice(), chars_of(site_id).as_slice());
    string_of(&z)
}

pub open spec fn record_line(name: Seq<char>, ttl: i64, record_type: Seq<char>, value: Seq<char>) -> Seq<
    char,
> {
    name + " "@ + dec_int(ttl as int) + " IN "@ + record_type + " "@ + value + "\n"@
}

pub open spec fn ds_line(d: DsRecord) -> Seq<char> {
    "@ 300 IN DS "@ + dec_nat(d.key_tag as nat) + " "@ + dec_nat(d.algorithm as nat) + " "@
        + dec_nat(d.digest_type as nat) + " "@ + d.digest@ + "\n"@
}

pub open spec fn record_lines(rows: Seq<DnsRecordRow>) -> Seq<char>
    decreases rows.len(),
{
    if rows.len() == 0 {
        seq![]
    } else {
        record_lines(rows.drop_last()) + record_line(
            rows.last().name@,
            rows.last().ttl,
            rows.last().record_type@,
            rows.last().value@,
        )
    }
}

pub open spec fn ds_lines(ds: Seq<DsRecord>) -> Seq<char>
    decreases ds.len(),
{
    if ds.len() == 0 {
        seq![]
    } else {
        ds_lines(ds.drop_last()) + ds_line(ds.last())
    }
}

/// The zone file of a site: an `$ORIGIN` line, a comment when DNSSEC is on,
/// a line per record (`name ttl IN type value`), and a DS line per
/// delegation signer.
pub open spec fn zone_file_of(rows: Seq<DnsRecordRow>, dnssec_enabled: bool, ds: Seq<DsRecord>) -> Seq<
    char,
> {
    "$ORIGIN .\n"@ + (if dnssec_enabled {
        "; DNSSEC enabled\n"@
    } else {
        seq![]
    }) + record_lines(rows) + ds_lines(ds)
}

pub fn render_zone_file(rows: &[DnsRecordRow], dnssec_enabled: bool, ds_records: &[DsRecord]) -> (r:
    String)
    ensures
        r@ == zone_file_of(rows@, dnssec_enabled, ds_records@),
{
    let mut body = chars_of("$ORIGIN .\n");
    if dnssec_enabled {
        push_str(&mut body, "; DNSSEC enabled\n");
    }
    let ghost head = body@;
    assert(head == "$ORIGIN .\n"@ + (if dnssec_enabled {
        "; DNSSEC enabled\n"@
    } else {
        seq![]
    })) by {
        if !dnssec_enabled {
            assert("$ORIGIN .\n"@ + Seq::<char>::empty() =~= "$ORIGIN .\n"@);
        }
    }
    let mut i: usize = 0;
    assert(rows@.take(0) =~= Seq::<DnsRecordRow>::empty());
    assert(head + record_lines(rows@.take(0)) =~= head);
    while i < rows.len()
        invariant
            i <= rows.len(),
            body@ == head + record_lines(rows@.take(i as int)),
        decreases rows.len() - i,
    {
        let row = &rows[i];
        let ghost before = body@;
        push_str(&mut body, row.name.as_str());
        push_str(&mut body, " ");
        push_i64(&mut body, row.ttl);
        push_str(&mut body, " IN ");
        push_str(&mut body, row.record_type.as_str());
        push_str(&mut body, " ");
        push_str(&mut body, row.value.as_str());
        push_str(&mut body, "\n");
        assert(rows@.take(i + 1).drop_last() =~= rows@.take(i as int));
        assert(body@ =~= before + record_line(row.name@, row.ttl, row.record_type@, row.value@));
        i = i + 1;
    }
    assert(rows@.take(rows.len() as int) =~= rows@);
    let ghost mid = body@;
    let mut k: usize = 0;
    assert(ds_records@.take(0) =~= Seq::<DsRecord>::empty());
    assert(mid + ds_lines(ds_records@.take(0)) =~= mid);
    while k < ds_records.len()
        invariant
            k <= ds_records.len(),
            body@ == mid + ds_lines(ds_records@.take(k as int)),
        decreases ds_records.len() - k,
    {
        let d = &ds_records[k];
        let ghost before = body@;
        push_str(&mut body, "@ 300 IN DS ");
        push_u64(&mut body, d.key_tag as u64);
        push_str(&mut body, " ");
        push_u64(&mut body, d.algorithm as u64);
        push_str(&mut body, " ");
        push_u64(&mut body, d.digest_type as u64);
        push_str(&mut body, " ");
        push_str(&mut body, d.digest.as_str());
        push_str(&mut body, "\n");
        assert(ds_records@.take(k + 1).drop_last() =~= ds_records@.take(k as int));
        assert(body@ =~= before + ds_line(*d));
        k = k + 1;
    }
    assert(ds_records@.take(ds_records.len() as int) =~= ds_records@);
    string_of(&body)
}

pub open spec fn row_matches(row: DnsRecordRow, site_id: Seq<char>, r: DnsRecord, now: i64) -> bool {
    crate::ids::is_hyphenated_uuid(row.id@) && row.site_id@ == site_id && row.name@ == r.name@
        && row.record_type@ == r.record_type@ && row.value@ == r.value@ && row.ttl == r.ttl
        && row.created_at == now
}

/// The rows that a sync stores: one per record, in order, each with a fresh
/// random id, the site, and the time of the sync.
pub fn build_dns_rows(site_id: &str, records: &[DnsRecord], now: i64) -> (rows: Vec<DnsRecordRow>)
    ensures
        rows@.len() == records@.len(),
        forall|i: int| 0 <= i < rows@.len() ==> row_matches(#[trigger] rows@[i], site_id@, records@[i], now),
{
    let mut rows: Vec<DnsRecordRow> = Vec::new();
    let mut i: usize = 0;
    while i < records.len()
        invariant
            i <= records.len(),
            rows@.len() == i,
            forall|k: int| 0 <= k < i ==> row_matches(#[trigger] rows@[k], site_id@, records@[k], now),
        decreases records.len() - i,
    {
        let r = &records[i];
        rows.push(
            DnsRecordRow {
                id: crate::ids::new_uuid(),
                site_id: crate::text::owned(site_id),
                name: r.name.clone(),
                record_type: r.record_type.clone(),
                value: r.value.clone(),
                ttl: r.ttl,
                created_at: now,
            },
        );
        i = i + 1;
    }
    rows
}

pub open spec fn record_view(r: DnsRecord) -> (Seq<char>, Seq<char>, Seq<char>, i64) {
    (r.name@, r.record_type@, r.value@, r.ttl)
}

pub open spec fn record_views(v: Seq<DnsRecord>) -> Seq<(Seq<char>, Seq<char>, Seq<char>, i64)> {
    v.map_values(|r: DnsRecord| record_view(r))
}

/// The records that stored rows stand for.
pub open spec fn records_of_rows(rows: Seq<DnsRecordRow>) -> Seq<(Seq<char>, Seq<char>, Seq<char>, i64)> {
    rows.map_values(|r: DnsRecordRow| (r.name@, r.record_type@, r.value@, r.ttl))
}

/// What a sync stores is what a listing gives back: the rows built from a
/// sync's records stand for exactly those records, in order.
pub proof fn lemma_synced_records_listed_back(
    site_id: Seq<char>,
    records: Seq<DnsRecord>,
    rows: Seq<DnsRecordRow>,
    now: i64,
)
    requires
        rows.len() == records.len(),
        forall|i: int| 0 <= i < rows.len() ==> row_matches(#[trigger] rows[i], site_id, records[i], now),
    ensures
        records_of_rows(rows) == record_views(records),
{
    assert(records_of_rows(rows) =~= record_views(records));
}

/// The records of a zone as the API shows them.
pub fn rows_to_records(rows: &[DnsRecordRow]) -> (records: Vec<DnsRecord>)
    ensures
        records@.len() == rows@.len(),
        record_views(records@) == records_of_rows(rows@),
        forall|i: int| 0 <= i < rows@.len() ==> {
            &&& (#[trigger] records@[i]).name@ == rows@[i].name@
            &&& records@[i].record_type@ == rows@[i].record_type@
            &&& records@[i].value@ == rows@[i].value@
            &&& records@[i].ttl == rows@[i].ttl
        },
{
    let mut out: Vec<DnsRecord> = Vec::new();
    let mut i: usize = 0;
    while i < rows.len()
        invariant
            i <= rows.len(),
            out@.len() == i,
            forall|k: int| 0 <= k < i ==> {
                &&& (#[trigger] out@[k]).name@ == rows@[k].name@
                &&& out@[k].record_type@ == rows@[k].record_type@
                &&& out@[k].value@ == rows@[k].value@
                &&& out@[k].ttl == rows@[k].ttl
            },
        decreases rows.len() - i,
    {
        let r = &rows[i];
        out.push(
            DnsRecord {
                name: r.name.clone(),
                record_type: r.record_type.clone(),
                value: r.value.clone(),
                ttl: r.ttl,
            },
        );
        i = i + 1;
    }
    assert(record_views(out@) =~= records_of_rows(rows@));
    out
}

/// A sync announces a DNSSEC change when DNSSEC is on or delegation signers
/// were given.
pub fn dnssec_updated(req: &SyncDnsRequest) -> (r: bool)
    ensures
        r == (req.dnssec_enabled || req.ds_records@.len() > 0),
{
    req.dnssec_enabled || req.ds_records.len() > 0
}

/// The line of one stored record in a zone file.
pub open spec fn row_line(row: DnsRecordRow) -> Seq<char> {
    record_line(row.name@, row.ttl, row.record_type@, row.value@)
}

/// The records part of a zone file holds every stored record's line, in
/// order: none for no records, a record's own line for one, and for two
/// lists of records one after the other, the lines of the first followed by
/// those of the second.
pub proof fn lemma_every_record_written(rows: Seq<DnsRecordRow>, more: Seq<DnsRecordRow>, row: DnsRecordRow)
    ensures
        record_lines(Seq::<DnsRecordRow>::empty()) == Seq::<char>::empty(),
        record_lines(seq![row]) == row_line(row),
        record_lines(rows + more) == record_lines(rows) + record_lines(more),
    decreases more.len(),
{
    let one = seq![row];
    assert(one.drop_last() =~= Seq::<DnsRecordRow>::empty());
    assert(one.last() == row);
    assert(record_lines(one.drop_last()) == Seq::<char>::empty());
    assert(Seq::<char>::empty() + row_line(row) =~= row_line(row));
    assert(record_lines(one) == record_lines(one.drop_last()) + row_line(one.last()));
    if more.len() == 0 {
        assert(rows + more =~= rows);
        assert(record_lines(rows) + Seq::<char>::empty() =~= record_lines(rows));
    } else {
        lemma_every_record_written(rows, more.drop_last(), row);
        assert((rows + more).drop_last() =~= rows + more.drop_last());
        assert((rows + more).last() == more.last());
        let a = record_lines(rows);
        let b = record_lines(more.drop_last());
        assert((a + b) + row_line(more.last()) =~= a + (b + row_line(more.last())));
    }
}

/// Adding a record to a site's zone adds its line after those of the
/// records before it, and nothing else: the zone file of no records is the
/// `$ORIGIN` line (and the DNSSEC comment when DNSSEC is on).
pub proof fn lemma_zone_file_grows_by_record(
    rows: Seq<DnsRecordRow>,
    row: DnsRecordRow,
    dnssec_enabled: bool,
)
    ensures
        zone_file_of(rows.push(row), dnssec_enabled, seq![]) == zone_file_of(rows, dnssec_enabled, seq![])
            + row_line(row),
        zone_file_of(Seq::<DnsRecordRow>::empty(), dnssec_enabled, seq![]) == "$ORIGIN .\n"@ + (if dnssec_enabled {
            "; DNSSEC enabled\n"@
        } else {
            seq![]
        }),
{
    let head = "$ORIGIN .\n"@ + (if dnssec_enabled {
        "; DNSSEC enabled\n"@
    } else {
        Seq::<char>::empty()
    });
    assert(rows.push(row).drop_last() =~= rows);
    let e = Seq::<char>::empty();
    assert(ds_lines(Seq::<DsRecord>::empty()) == e);
    assert(record_lines(Seq::<DnsRecordRow>::empty()) == e);
    assert(head + e + e =~= head);
    assert(head + (record_lines(rows) + row_line(row)) + e =~= (head + record_lines(rows) + e) + row_line(row));
}

} // verus!
