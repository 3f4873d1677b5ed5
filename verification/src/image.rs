//! Building the flash image from a firmware file: a raw BIN is written at
//! the start of flash, an Intel HEX file is read record by record, its data
//! gathered into contiguous chunks, sorted by address and checked for
//! overlaps.

use vstd::prelude::*;
use vstd::arithmetic::div_mod::{lemma_add_mod_noop, lemma_small_mod};
use vstd::utf8::{decode_utf8, valid_utf8};
use crate::firmware::{FLASH_BASE, FileKind, FirmwareError, FirmwareImage, FirmwareSegment, detect_file_kind, file_kind_of};

verus! {

broadcast use vstd::seq_lib::group_to_multiset_ensures;

/// One record of an Intel HEX file.
#[derive(Debug, Clone)]
pub enum HexRecord {
    Data { offset: u16, value: Vec<u8> },
    EndOfFile,
    ExtendedSegmentAddress(u16),
    StartSegmentAddress { cs: u16, ip: u16 },
    ExtendedLinearAddress(u16),
    StartLinearAddress(u32),
}

/// What a `HexRecord` holds, with the data bytes as a sequence.
pub enum SpecHexRecord {
    Data { offset: u16, value: Seq<u8> },
    EndOfFile,
    ExtendedSegmentAddress(u16),
    StartSegmentAddress { cs: u16, ip: u16 },
    ExtendedLinearAddress(u16),
    StartLinearAddress(u32),
}

impl View for HexRecord {
    type V = SpecHexRecord;

    open spec fn view(&self) -> SpecHexRecord {
        match self {
            HexRecord::Data { offset, value } => SpecHexRecord::Data { offset: *offset, value: value@ },
            HexRecord::EndOfFile => SpecHexRecord::EndOfFile,
            HexRecord::ExtendedSegmentAddress(a) => SpecHexRecord::ExtendedSegmentAddress(*a),
            HexRecord::StartSegmentAddress { cs, ip } => SpecHexRecord::StartSegmentAddress {
                cs: *cs,
                ip: *ip,
            },
            HexRecord::ExtendedLinearAddress(a) => SpecHexRecord::ExtendedLinearAddress(*a),
            HexRecord::StartLinearAddress(a) => SpecHexRecord::StartLinearAddress(*a),
        }
    }
}

/// A read record, or `None` where the line could not be parsed.
pub open spec fn read_record_view(r: Option<HexRecord>) -> Option<SpecHexRecord> {
    match r {
        Some(x) => Some(x@),
        None => None,
    }
}

pub open spec fn records_view(rs: Seq<Option<HexRecord>>) -> Seq<Option<SpecHexRecord>> {
    rs.map_values(|r: Option<HexRecord>| read_record_view(r))
}

/// The records that `ihex::Reader` yields for a text, one per non-empty
/// line, `None` standing for a line it rejected.
pub uninterp spec fn ihex_records(text: Seq<char>) -> Seq<Option<SpecHexRecord>>;

/// Reads `text` with `ihex::Reader::new` (which stops after the first error
/// and after the end-of-file record) and converts each item: a record into
/// the same `HexRecord`, an error into `None`. The result is named, not
/// described: it is `ihex_records` of the text.
#[verifier::external_body]
fn read_hex_records(text: &str) -> (r: Vec<Option<HexRecord>>)
    ensures
        records_view(r@) == ihex_records(text@),
{
    ihex::Reader::new(text).map(|item| match item {
        Ok(ihex::Record::Data { offset, value }) => Some(HexRecord::Data { offset, value }),
        Ok(ihex::Record::EndOfFile) => Some(HexRecord::EndOfFile),
        Ok(ihex::Record::ExtendedSegmentAddress(a)) => Some(HexRecord::ExtendedSegmentAddress(a)),
        Ok(ihex::Record::StartSegmentAddress { cs, ip }) => Some(HexRecord::StartSegmentAddress { cs, ip }),
        Ok(ihex::Record::ExtendedLinearAddress(a)) => Some(HexRecord::ExtendedLinearAddress(a)),
        Ok(ihex::Record::StartLinearAddress(a)) => Some(HexRecord::StartLinearAddress(a)),
        Err(_) => None,
    }).collect()
}

/// A chunk of the image: start address and bytes.
pub open spec fn segment_view(s: FirmwareSegment) -> (u32, Seq<u8>) {
    (s.address, s.data@)
}

pub open spec fn segments_view(s: Seq<FirmwareSegment>) -> Seq<(u32, Seq<u8>)> {
    s.map_values(|x: FirmwareSegment| segment_view(x))
}

/// The address just past a chunk, computed in 32 bits as the flasher does:
/// `address + len as u32`, wrapping around at 4 GiB.
pub open spec fn chunk_end(c: (u32, Seq<u8>)) -> u32 {
    ((c.0 + c.1.len()) % 0x1_0000_0000) as u32
}

/// State carried from record to record while reading a HEX file.
pub struct HexScan {
    pub upper_linear: u16,
    pub upper_segment: u16,
    pub use_linear: bool,
    pub chunks: Seq<(u32, Seq<u8>)>,
}

pub open spec fn initial_scan() -> HexScan {
    HexScan { upper_linear: 0, upper_segment: 0, use_linear: true, chunks: Seq::empty() }
}

/// Absolute address of a data record: the last extended linear address
/// shifted by 16, or the last extended segment address shifted by 4, plus
/// the record's offset.
pub open spec fn record_address(st: HexScan, offset: u16) -> u32 {
    let base: int = if st.use_linear {
        st.upper_linear * 0x10000
    } else {
        st.upper_segment * 16
    };
    (base + offset) as u32
}

/// Appends data at `address`: it extends the last chunk when that chunk
/// ends exactly there, and starts a new chunk otherwise.
pub open spec fn add_chunk(chunks: Seq<(u32, Seq<u8>)>, address: u32, value: Seq<u8>) -> Seq<
    (u32, Seq<u8>),
> {
    if chunks.len() > 0 && chunk_end(chunks.last()) == address {
        chunks.update(chunks.len() - 1, (chunks.last().0, chunks.last().1 + value))
    } else {
        chunks.push((address, value))
    }
}

/// One record applied to the scan state; `index` is its position among the
/// records (line numbers in messages count from 1).
pub open spec fn scan_step(st: HexScan, rec: Option<SpecHexRecord>, index: int) -> Result<
    HexScan,
    FirmwareError,
> {
    match rec {
        None => Err(FirmwareError::HexParse { line: (index + 1) as usize }),
        Some(SpecHexRecord::Data { offset, value }) => {
            if value.len() == 0 {
                Ok(st)
            } else if record_address(st, offset) < FLASH_BASE {
                Err(FirmwareError::BelowFlash { address: record_address(st, offset) })
            } else {
                Ok(
                    HexScan {
                        upper_linear: st.upper_linear,
                        upper_segment: st.upper_segment,
                        use_linear: st.use_linear,
                        chunks: add_chunk(st.chunks, record_address(st, offset), value),
                    },
                )
            }
        },
        Some(SpecHexRecord::ExtendedLinearAddress(a)) => Ok(
            HexScan {
                upper_linear: a,
                upper_segment: st.upper_segment,
                use_linear: true,
                chunks: st.chunks,
            },
        ),
        Some(SpecHexRecord::ExtendedSegmentAddress(a)) => Ok(
            HexScan {
                upper_linear: st.upper_linear,
                upper_segment: a,
                use_linear: false,
                chunks: st.chunks,
            },
        ),
        Some(_) => Ok(st),
    }
}

/// The scan state after the first `n` records, or the first error met.
pub open spec fn scan_records(records: Seq<Option<SpecHexRecord>>, n: nat) -> Result<
    HexScan,
    FirmwareError,
>
    decreases n,
{
    if n == 0 {
        Ok(initial_scan())
    } else {
        match scan_records(records, (n - 1) as nat) {
            Ok(st) => scan_step(st, records[n - 1], n - 1),
            Err(e) => Err(e),
        }
    }
}

/// `sorted` with `c` placed after every chunk whose address is not above
/// its own (so chunks with equal addresses keep their order).
pub open spec fn insert_by_address(sorted: Seq<(u32, Seq<u8>)>, c: (u32, Seq<u8>)) -> Seq<
    (u32, Seq<u8>),
>
    decreases sorted.len(),
{
    if sorted.len() == 0 {
        seq![c]
    } else if sorted.last().0 <= c.0 {
        sorted.push(c)
    } else {
        insert_by_address(sorted.drop_last(), c).push(sorted.last())
    }
}

/// Stable sort of chunks by start address.
pub open spec fn sort_by_address(s: Seq<(u32, Seq<u8>)>) -> Seq<(u32, Seq<u8>)>
    decreases s.len(),
{
    if s.len() == 0 {
        s
    } else {
        insert_by_address(sort_by_address(s.drop_last()), s.last())
    }
}

/// The first position `i >= from` where chunk `i + 1` starts before chunk
/// `i` ends.
pub open spec fn first_overlap(s: Seq<(u32, Seq<u8>)>, from: int) -> Option<int>
    decreases s.len() - from,
{
    if from < 0 || from + 1 >= s.len() {
        None
    } else if s[from + 1].0 < chunk_end(s[from]) {
        Some(from)
    } else {
        first_overlap(s, from + 1)
    }
}

/// The chunks of the image a HEX file's records describe, or the error
/// the loader reports for them.
pub open spec fn hex_segments(records: Seq<Option<SpecHexRecord>>) -> Result<
    Seq<(u32, Seq<u8>)>,
    FirmwareError,
> {
    match scan_records(records, records.len()) {
        Err(e) => Err(e),
        Ok(st) => if st.chunks.len() == 0 {
            Err(FirmwareError::NoData)
        } else {
            let sorted = sort_by_address(st.chunks);
            match first_overlap(sorted, 0) {
                Some(i) => Err(FirmwareError::Overlap { first: sorted[i].0, second: sorted[i + 1].0 }),
                None => Ok(sorted),
            }
        },
    }
}

/// Sum of the chunk lengths.
pub open spec fn data_len_sum(s: Seq<(u32, Seq<u8>)>) -> nat
    decreases s.len(),
{
    if s.len() == 0 {
        0
    } else {
        data_len_sum(s.drop_last()) + s.last().1.len()
    }
}

/// `total_bytes` as a `usize`: the sum of the chunk lengths, wrapping at the
/// width of `usize` as the loader's summation does.
pub open spec fn wrapped_total(s: Seq<(u32, Seq<u8>)>) -> usize {
    (data_len_sum(s) % (usize::MAX as nat + 1)) as usize
}

/// `address + len as u32`, wrapping at 4 GiB.
fn segment_end(address: u32, len: usize) -> (e: u32)
    ensures
        e == ((address + len) % 0x1_0000_0000) as u32,
{
    let low = ((len as u64) % 0x1_0000_0000) as u32;
    let e = address.wrapping_add(low);
    proof {
        lemma_add_mod_noop(address as int, len as int, 0x1_0000_0000);
        lemma_small_mod(address as nat, 0x1_0000_0000);
        if address + low < 0x1_0000_0000 {
            lemma_small_mod((address + low) as nat, 0x1_0000_0000);
        } else {
            lemma_small_mod((address + low - 0x1_0000_0000) as nat, 0x1_0000_0000);
            vstd::arithmetic::div_mod::lemma_mod_add_multiples_vanish(
                (address + low - 0x1_0000_0000) as int,
                0x1_0000_0000,
            );
        }
    }
    e
}

/// Adds a record's data at `address` to the chunk list.
fn append_chunk(chunks: &mut Vec<FirmwareSegment>, address: u32, data: Vec<u8>)
    ensures
        segments_view(final(chunks)@) == add_chunk(segments_view(old(chunks)@), address, data@),
{
    let n = chunks.len();
    let ghost old_view = segments_view(chunks@);
    let ghost dv = data@;
    if n > 0 {
        let end = segment_end(chunks[n - 1].address, chunks[n - 1].data.len());
        if end == address {
            let last = chunks.pop().unwrap();
            let FirmwareSegment { address: last_address, data: mut last_data } = last;
            let mut data = data;
            last_data.append(&mut data);
            chunks.push(FirmwareSegment { address: last_address, data: last_data });
            proof {
                assert(segments_view(chunks@) =~= add_chunk(old_view, address, dv));
            }
            return;
        }
    }
    chunks.push(FirmwareSegment { address, data });
    proof {
        assert(segments_view(chunks@) =~= add_chunk(old_view, address, data@));
    }
}


proof fn lemma_scan_error_persists(records: Seq<Option<SpecHexRecord>>, n: nat, m: nat)
    requires
        n <= m,
        scan_records(records, n) is Err,
    ensures
        scan_records(records, m) == scan_records(records, n),
    decreases m - n,
{
    if n < m {
        lemma_scan_error_persists(records, n, (m - 1) as nat);
    }
}

/// Reads the records in order, stopping at the first error.
fn scan_hex_records(records: &Vec<Option<HexRecord>>) -> (r: Result<Vec<FirmwareSegment>, FirmwareError>)
    ensures
        match scan_records(records_view(records@), records@.len()) {
            Ok(st) => r is Ok && segments_view(r->Ok_0@) == st.chunks,
            Err(e) => r == Err::<Vec<FirmwareSegment>, FirmwareError>(e),
        },
{
    let ghost rv = records_view(records@);
    let mut upper_linear: u16 = 0;
    let mut upper_segment: u16 = 0;
    let mut use_linear = true;
    let mut chunks: Vec<FirmwareSegment> = Vec::new();
    let mut i: usize = 0;
    proof {
        assert(segments_view(chunks@) =~= Seq::<(u32, Seq<u8>)>::empty());
    }
    while i < records.len()
        invariant
            rv == records_view(records@),
            i <= records@.len(),
            scan_records(rv, i as nat) == Ok::<HexScan, FirmwareError>(
                HexScan { upper_linear, upper_segment, use_linear, chunks: segments_view(chunks@) },
            ),
        decreases records@.len() - i,
    {
        let ghost st = HexScan {
            upper_linear,
            upper_segment,
            use_linear,
            chunks: segments_view(chunks@),
        };
        assert(rv[i as int] == read_record_view(records@[i as int]));
        match &records[i] {
            None => {
                proof {
                    lemma_scan_error_persists(rv, (i + 1) as nat, rv.len());
                }
                return Err(FirmwareError::HexParse { line: i + 1 });
            },
            Some(HexRecord::Data { offset, value }) => {
                if value.len() > 0 {
                    let base: u32 = if use_linear {
                        (upper_linear as u32) * 0x10000
                    } else {
                        (upper_segment as u32) * 16
                    };
                    let address = base + (*offset as u32);
                    assert(address == record_address(st, *offset));
                    if address < FLASH_BASE {
                        proof {
                            lemma_scan_error_persists(rv, (i + 1) as nat, rv.len());
                        }
                        return Err(FirmwareError::BelowFlash { address });
                    }
                    let data = value.clone();
                    assert(data@ =~= value@);
                    append_chunk(&mut chunks, address, data);
                }
            },
            Some(HexRecord::ExtendedLinearAddress(a)) => {
                upper_linear = *a;
                use_linear = true;
            },
            Some(HexRecord::ExtendedSegmentAddress(a)) => {
                upper_segment = *a;
                use_linear = false;
            },
            Some(_) => {},
        }
        i = i + 1;
    }
    Ok(chunks)
}

proof fn lemma_insert_at(s: Seq<(u32, Seq<u8>)>, c: (u32, Seq<u8>), pos: int)
    requires
        0 <= pos <= s.len(),
        pos > 0 ==> s[pos - 1].0 <= c.0,
        forall|j: int| pos <= j < s.len() ==> s[j].0 > c.0,
    ensures
        insert_by_address(s, c) == s.insert(pos, c),
    decreases s.len(),
{
    if s.len() == 0 {
        assert(s.insert(pos, c) =~= seq![c]);
    } else if s.last().0 <= c.0 {
        assert(s.insert(pos, c) =~= s.push(c));
    } else {
        lemma_insert_at(s.drop_last(), c, pos);
        assert(s.insert(pos, c) =~= s.drop_last().insert(pos, c).push(s.last()));
    }
}

/// Stable insertion sort of the chunks by start address.
fn sort_segments(chunks: Vec<FirmwareSegment>) -> (sorted: Vec<FirmwareSegment>)
    ensures
        segments_view(sorted@) == sort_by_address(segments_view(chunks@)),
{
    let ghost cv = segments_view(chunks@);
    let mut rest = chunks;
    let mut sorted: Vec<FirmwareSegment> = Vec::new();
    let ghost mut k: int = 0;
    proof {
        assert(cv.take(0) =~= Seq::<(u32, Seq<u8>)>::empty());
        assert(segments_view(sorted@) =~= sort_by_address(cv.take(0)));
        assert(segments_view(rest@) =~= cv.skip(0));
    }
    while rest.len() > 0
        invariant
            0 <= k <= cv.len(),
            segments_view(sorted@) == sort_by_address(cv.take(k)),
            segments_view(rest@) == cv.skip(k),
        decreases rest@.len(),
    {
        let ghost rest_before = rest@;
        let seg = rest.remove(0);
        let ghost sv = segments_view(sorted@);
        let ghost c = segment_view(seg);
        proof {
            assert(segments_view(rest_before).len() == rest_before.len());
            assert(segments_view(rest_before)[0] == c);
            assert(k < cv.len());
            assert(cv.skip(k)[0] == cv[k]);
            assert(rest@ =~= rest_before.subrange(1, rest_before.len() as int));
            assert forall|j: int| 0 <= j < cv.len() - (k + 1) implies #[trigger] segments_view(
                rest@,
            )[j] == cv.skip(k + 1)[j] by {
                assert(segments_view(rest_before)[j + 1] == cv.skip(k)[j + 1]);
            }
            assert(segments_view(rest@) =~= cv.skip(k + 1));
            assert(cv.take(k + 1).drop_last() =~= cv.take(k));
            assert(cv.take(k + 1).last() == cv[k]);
        }
        let mut pos = sorted.len();
        while pos > 0 && sorted[pos - 1].address > seg.address
            invariant
                pos <= sorted@.len(),
                sv == segments_view(sorted@),
                forall|j: int| pos <= j < sorted@.len() ==> sorted@[j].address > seg.address,
            decreases pos,
        {
            pos = pos - 1;
        }
        proof {
            lemma_insert_at(sv, c, pos as int);
        }
        sorted.insert(pos, seg);
        proof {
            assert(segments_view(sorted@) =~= sv.insert(pos as int, c));
            k = k + 1;
        }
    }
    proof {
        assert(cv.take(k) =~= cv);
    }
    sorted
}


proof fn lemma_first_overlap_range(s: Seq<(u32, Seq<u8>)>, from: int)
    ensures
        first_overlap(s, from) matches Some(i) ==> from <= i && 0 <= i && i + 1 < s.len()
            && s[i + 1].0 < chunk_end(s[i]),
    decreases s.len() - from,
{
    if from >= 0 && from + 1 < s.len() {
        lemma_first_overlap_range(s, from + 1);
    }
}

/// Finds the first pair of neighbouring chunks where the second starts
/// before the first ends.
fn find_overlap(sorted: &Vec<FirmwareSegment>) -> (r: Option<usize>)
    ensures
        match first_overlap(segments_view(sorted@), 0) {
            Some(i) => r == Some(i as usize),
            None => r is None,
        },
        r matches Some(i) ==> i + 1 < sorted@.len(),
{
    let ghost sv = segments_view(sorted@);
    proof {
        lemma_first_overlap_range(sv, 0);
    }
    if sorted.len() < 2 {
        return None;
    }
    let last = sorted.len() - 1;
    let mut k: usize = 0;
    while k < last
        invariant
            sv == segments_view(sorted@),
            sv.len() == sorted@.len(),
            last + 1 == sorted@.len(),
            k <= last,
            first_overlap(sv, 0) == first_overlap(sv, k as int),
        decreases last - k,
    {
        let end_a = segment_end(sorted[k].address, sorted[k].data.len());
        assert(sv[k as int] == segment_view(sorted@[k as int]));
        assert(sv[k + 1] == segment_view(sorted@[k + 1]));
        if sorted[k + 1].address < end_a {
            return Some(k);
        }
        k = k + 1;
    }
    None
}

proof fn lemma_wrapped_step(total: usize, sum: nat, len: usize)
    requires
        total as int == (sum as int) % (usize::MAX as int + 1),
    ensures
        vstd::wrapping::usize_specs::wrapping_add(total, len) as int == (sum as int + len as int) % (
        usize::MAX as int + 1),
{
    let m: int = usize::MAX as int + 1;
    lemma_add_mod_noop(sum as int, len as int, m);
    lemma_small_mod(len as nat, m as nat);
    if total + len < m {
        lemma_small_mod((total + len) as nat, m as nat);
    } else {
        lemma_small_mod((total + len - m) as nat, m as nat);
        vstd::arithmetic::div_mod::lemma_mod_add_multiples_vanish((total + len - m) as int, m);
    }
}

/// Total number of bytes held by the chunks, summed in `usize`.
fn total_length(segments: &Vec<FirmwareSegment>) -> (t: usize)
    ensures
        t == wrapped_total(segments_view(segments@)),
{
    let ghost sv = segments_view(segments@);
    let mut total: usize = 0;
    let mut k: usize = 0;
    proof {
        assert(sv.take(0) =~= Seq::<(u32, Seq<u8>)>::empty());
        lemma_small_mod(0, usize::MAX as nat + 1);
    }
    while k < segments.len()
        invariant
            sv == segments_view(segments@),
            sv.len() == segments@.len(),
            k <= segments@.len(),
            total == data_len_sum(sv.take(k as int)) % (usize::MAX as nat + 1),
        decreases segments@.len() - k,
    {
        let len = segments[k].data.len();
        proof {
            assert(sv[k as int] == segment_view(segments@[k as int]));
            assert(sv.take(k + 1).drop_last() =~= sv.take(k as int));
            lemma_wrapped_step(total, data_len_sum(sv.take(k as int)), len);
        }
        total = total.wrapping_add(len);
        k = k + 1;
    }
    proof {
        assert(sv.take(k as int) =~= sv);
    }
    total
}

/// Builds the image of a HEX file from its records: data records are placed
/// at their absolute addresses (which must lie in flash), adjacent data is
/// merged, chunks are sorted by address and must not overlap.
pub fn hex_image_from_records(records: &Vec<Option<HexRecord>>) -> (r: Result<
    FirmwareImage,
    FirmwareError,
>)
    ensures
        match hex_segments(records_view(records@)) {
            Ok(segs) => r is Ok && segments_view(r->Ok_0.segments@) == segs
                && r->Ok_0.total_bytes == wrapped_total(segs) && r->Ok_0.kind_label@ == "HEX"@,
            Err(e) => r == Err::<FirmwareImage, FirmwareError>(e),
        },
{
    let chunks = match scan_hex_records(records) {
        Ok(c) => c,
        Err(e) => {
            return Err(e);
        },
    };
    assert(segments_view(chunks@).len() == chunks@.len());
    if chunks.len() == 0 {
        return Err(FirmwareError::NoData);
    }
    let sorted = sort_segments(chunks);
    let ghost sv = segments_view(sorted@);
    proof {
        lemma_first_overlap_range(sv, 0);
    }
    match find_overlap(&sorted) {
        Some(i) => {
            assert(sv[i as int] == segment_view(sorted@[i as int]));
            assert(sv[i + 1] == segment_view(sorted@[i + 1]));
            return Err(
                FirmwareError::Overlap { first: sorted[i].address, second: sorted[i + 1].address },
            );
        },
        None => {},
    }
    let total_bytes = total_length(&sorted);
    Ok(FirmwareImage { kind_label: "HEX", segments: sorted, total_bytes })
}


/// Reads a HEX file's text with `ihex` and builds its image.
pub fn load_hex_image(text: &str) -> (r: Result<FirmwareImage, FirmwareError>)
    ensures
        match hex_segments(ihex_records(text@)) {
            Ok(segs) => r is Ok && segments_view(r->Ok_0.segments@) == segs
                && r->Ok_0.total_bytes == wrapped_total(segs) && r->Ok_0.kind_label@ == "HEX"@,
            Err(e) => r == Err::<FirmwareImage, FirmwareError>(e),
        },
{
    let records = read_hex_records(text);
    hex_image_from_records(&records)
}

/// The image of a BIN file: all of its bytes, written at the start of flash.
pub fn load_bin_image(firmware: Vec<u8>) -> (r: Result<FirmwareImage, FirmwareError>)
    ensures
        firmware@.len() == 0 ==> r == Err::<FirmwareImage, FirmwareError>(FirmwareError::EmptyBin),
        firmware@.len() > 0 ==> r is Ok && segments_view(r->Ok_0.segments@) == seq![
            (FLASH_BASE, firmware@),
        ] && r->Ok_0.total_bytes == firmware@.len() && r->Ok_0.kind_label@ == "BIN"@,
{
    if firmware.len() == 0 {
        return Err(FirmwareError::EmptyBin);
    }
    let total_bytes = firmware.len();
    let segments = vec![FirmwareSegment { address: FLASH_BASE, data: firmware }];
    proof {
        assert(segments_view(segments@) =~= seq![(FLASH_BASE, firmware@)]);
    }
    Ok(FirmwareImage { kind_label: "BIN", total_bytes, segments })
}

/// `String::from_utf8`: the bytes as text when they are valid UTF-8.
#[verifier::external_body]
pub(crate) fn utf8_to_string(bytes: Vec<u8>) -> (r: Option<String>)
    ensures
        r is Some <==> valid_utf8(bytes@),
        r matches Some(s) ==> s@ == decode_utf8(bytes@),
{
    String::from_utf8(bytes).ok()
}

/// What loading a firmware file of the given kind gives, for the file's
/// bytes (`None` when the file could not be read): the chunks and the label.
pub open spec fn firmware_image_result(kind: FileKind, contents: Option<Seq<u8>>) -> Result<
    (Seq<(u32, Seq<u8>)>, Seq<char>),
    FirmwareError,
> {
    match kind {
        FileKind::Bin => match contents {
            None => Err(FirmwareError::ReadFailed),
            Some(bytes) => if bytes.len() == 0 {
                Err(FirmwareError::EmptyBin)
            } else {
                Ok((seq![(FLASH_BASE, bytes)], "BIN"@))
            },
        },
        FileKind::Hex => match contents {
            None => Err(FirmwareError::HexReadFailed),
            Some(bytes) => if !valid_utf8(bytes) {
                Err(FirmwareError::HexReadFailed)
            } else {
                match hex_segments(ihex_records(decode_utf8(bytes))) {
                    Ok(segs) => Ok((segs, "HEX"@)),
                    Err(e) => Err(e),
                }
            },
        },
    }
}

/// Loads the flash image of a `.bin` or `.hex` firmware file (extension in
/// any letter case) from the file's contents, `None` when reading it failed.
pub fn load_firmware_image(file_path: &str, contents: Option<Vec<u8>>) -> (r: Result<
    FirmwareImage,
    FirmwareError,
>)
    ensures
        file_kind_of(file_path@) is None ==> r is Err && r->Err_0 is UnsupportedExtension
            && r->Err_0->UnsupportedExtension_0@ == file_path@,
        file_kind_of(file_path@) matches Some(kind) ==> match firmware_image_result(
            kind,
            match contents {
                Some(v) => Some(v@),
                None => None,
            },
        ) {
            Ok((segs, label)) => r is Ok && segments_view(r->Ok_0.segments@) == segs
                && r->Ok_0.total_bytes == wrapped_total(segs) && r->Ok_0.kind_label@ == label,
            Err(e) => r == Err::<FirmwareImage, FirmwareError>(e),
        },
{
    match detect_file_kind(file_path) {
        Some(FileKind::Bin) => match contents {
            None => Err(FirmwareError::ReadFailed),
            Some(bytes) => {
                let r = load_bin_image(bytes);
                proof {
                    if r is Ok {
                        let segs = segments_view(r->Ok_0.segments@);
                        reveal_with_fuel(data_len_sum, 2);
                        assert(segs.drop_last() =~= Seq::<(u32, Seq<u8>)>::empty());
                        lemma_small_mod(r->Ok_0.total_bytes as nat, usize::MAX as nat + 1);
                    }
                }
                r
            },
        },
        Some(FileKind::Hex) => match contents {
            None => Err(FirmwareError::HexReadFailed),
            Some(bytes) => match utf8_to_string(bytes) {
                None => Err(FirmwareError::HexReadFailed),
                Some(text) => load_hex_image(text.as_str()),
            },
        },
        None => Err(FirmwareError::UnsupportedExtension(String::from_str(file_path))),
    }
}


/// A chunk that may be flashed: it lies in flash and holds some bytes.
pub open spec fn flashable(c: (u32, Seq<u8>)) -> bool {
    c.0 >= FLASH_BASE && c.1.len() > 0
}

/// Number of data bytes the records carry.
pub open spec fn hex_data_len(records: Seq<Option<SpecHexRecord>>) -> nat
    decreases records.len(),
{
    if records.len() == 0 {
        0
    } else {
        hex_data_len(records.drop_last()) + match records.last() {
            Some(SpecHexRecord::Data { value, .. }) => value.len(),
            _ => 0,
        }
    }
}

proof fn lemma_add_chunk(chunks: Seq<(u32, Seq<u8>)>, address: u32, value: Seq<u8>)
    requires
        forall|k: int| 0 <= k < chunks.len() ==> flashable(#[trigger] chunks[k]),
        address >= FLASH_BASE,
        value.len() > 0,
    ensures
        forall|k: int|
            0 <= k < add_chunk(chunks, address, value).len() ==> flashable(
                #[trigger] add_chunk(chunks, address, value)[k],
            ),
        data_len_sum(add_chunk(chunks, address, value)) == data_len_sum(chunks) + value.len(),
{
    let r = add_chunk(chunks, address, value);
    if chunks.len() > 0 && chunk_end(chunks.last()) == address {
        assert(r.drop_last() =~= chunks.drop_last());
    } else {
        assert(r.drop_last() =~= chunks);
    }
}

proof fn lemma_scan_shape(records: Seq<Option<SpecHexRecord>>, n: nat)
    requires
        n <= records.len(),
    ensures
        scan_records(records, n) matches Ok(st) ==> (forall|k: int|
            0 <= k < st.chunks.len() ==> flashable(#[trigger] st.chunks[k])) && data_len_sum(
            st.chunks,
        ) == hex_data_len(records.take(n as int)),
    decreases n,
{
    if n > 0 {
        lemma_scan_shape(records, (n - 1) as nat);
        assert(records.take(n as int).drop_last() =~= records.take(n - 1));
        if let Ok(st) = scan_records(records, (n - 1) as nat) {
            if let Some(SpecHexRecord::Data { offset, value }) = records[n - 1] {
                if value.len() > 0 && record_address(st, offset) >= FLASH_BASE {
                    lemma_add_chunk(st.chunks, record_address(st, offset), value);
                }
            }
        }
    } else {
        assert(records.take(0) =~= Seq::<Option<SpecHexRecord>>::empty());
    }
}

proof fn lemma_insert_keeps(s: Seq<(u32, Seq<u8>)>, c: (u32, Seq<u8>), p: spec_fn((u32, Seq<u8>)) -> bool)
    requires
        forall|k: int| 0 <= k < s.len() ==> p(#[trigger] s[k]),
        p(c),
    ensures
        forall|k: int|
            0 <= k < insert_by_address(s, c).len() ==> p(#[trigger] insert_by_address(s, c)[k]),
        insert_by_address(s, c).len() == s.len() + 1,
        data_len_sum(insert_by_address(s, c)) == data_len_sum(s) + c.1.len(),
    decreases s.len(),
{
    if s.len() == 0 {
        assert(seq![c].drop_last() =~= s);
    } else if s.last().0 <= c.0 {
        assert(s.push(c).drop_last() =~= s);
    } else {
        lemma_insert_keeps(s.drop_last(), c, p);
        assert(insert_by_address(s, c).drop_last() =~= insert_by_address(s.drop_last(), c));
    }
}

pub open spec fn sorted_by_address(s: Seq<(u32, Seq<u8>)>) -> bool {
    forall|i: int, j: int| 0 <= i <= j < s.len() ==> s[i].0 <= s[j].0
}

proof fn lemma_insert_sorted(s: Seq<(u32, Seq<u8>)>, c: (u32, Seq<u8>))
    requires
        sorted_by_address(s),
    ensures
        sorted_by_address(insert_by_address(s, c)),
    decreases s.len(),
{
    if s.len() == 0 {
    } else if s.last().0 <= c.0 {
    } else {
        let b = s.last().0;
        lemma_insert_sorted(s.drop_last(), c);
        assert forall|k: int| 0 <= k < s.drop_last().len() implies #[trigger] s.drop_last()[k].0
            <= b by {
            assert(s[k].0 <= s[s.len() - 1].0);
        }
        lemma_insert_keeps(s.drop_last(), c, |x: (u32, Seq<u8>)| x.0 <= b);
        let r = insert_by_address(s.drop_last(), c);
        assert(insert_by_address(s, c) == r.push(s.last()));
        assert forall|i: int, j: int|
            0 <= i <= j < r.len() + 1 implies #[trigger] r.push(s.last())[i].0 <= #[trigger] r.push(
            s.last(),
        )[j].0 by {
            if j == r.len() && i < r.len() {
                assert(r[i].0 <= b);
            }
        }
    }
}

proof fn lemma_sort_shape(s: Seq<(u32, Seq<u8>)>)
    requires
        forall|k: int| 0 <= k < s.len() ==> flashable(#[trigger] s[k]),
    ensures
        sorted_by_address(sort_by_address(s)),
        sort_by_address(s).len() == s.len(),
        forall|k: int| 0 <= k < s.len() ==> flashable(#[trigger] sort_by_address(s)[k]),
        data_len_sum(sort_by_address(s)) == data_len_sum(s),
    decreases s.len(),
{
    if s.len() > 0 {
        lemma_sort_shape(s.drop_last());
        lemma_insert_sorted(sort_by_address(s.drop_last()), s.last());
        lemma_insert_keeps(sort_by_address(s.drop_last()), s.last(), |x: (u32, Seq<u8>)| flashable(x));
    }
}

proof fn lemma_no_overlap(s: Seq<(u32, Seq<u8>)>, from: int, i: int)
    requires
        0 <= from <= i,
        i + 1 < s.len(),
        first_overlap(s, from) is None,
    ensures
        s[i + 1].0 >= chunk_end(s[i]),
    decreases i - from,
{
    if from < i {
        lemma_no_overlap(s, from + 1, i);
    }
}

/// The image a HEX file loads into is laid out for flashing: it has at
/// least one chunk; chunks are sorted by address, start in flash and are
/// not empty; a chunk that ends below 4 GiB ends at or before the next
/// chunk starts; together they hold exactly the data bytes of the records;
/// and the byte count reported is that total whenever it fits in a `usize`.
pub proof fn law_hex_image_layout(records: Seq<Option<SpecHexRecord>>)
    ensures
        hex_segments(records) matches Ok(segs) ==> {
            &&& segs.len() > 0
            &&& sorted_by_address(segs)
            &&& forall|k: int| 0 <= k < segs.len() ==> #[trigger] segs[k].0 >= FLASH_BASE
            &&& forall|k: int| 0 <= k < segs.len() ==> #[trigger] segs[k].1.len() > 0
            &&& forall|k: int|
                0 <= k < segs.len() - 1 && segs[k].0 + segs[k].1.len() < 0x1_0000_0000 ==> segs[k].0
                    + segs[k].1.len() <= #[trigger] segs[k + 1].0
            &&& data_len_sum(segs) == hex_data_len(records)
            &&& data_len_sum(segs) <= usize::MAX ==> wrapped_total(segs) == data_len_sum(segs)
        },
{
    lemma_scan_shape(records, records.len());
    assert(records.take(records.len() as int) =~= records);
    if let Ok(st) = scan_records(records, records.len()) {
        if st.chunks.len() > 0 {
            lemma_sort_shape(st.chunks);
            let segs = sort_by_address(st.chunks);
            if first_overlap(segs, 0) is None {
                assert forall|k: int| 0 <= k < segs.len() implies #[trigger] segs[k].0 >= FLASH_BASE by {
                    assert(flashable(segs[k]));
                }
                assert forall|k: int| 0 <= k < segs.len() implies #[trigger] segs[k].1.len() > 0 by {
                    assert(flashable(segs[k]));
                }
                assert forall|k: int|
                    0 <= k < segs.len() - 1 && segs[k].0 + segs[k].1.len()
                        < 0x1_0000_0000 implies segs[k].0 + segs[k].1.len()
                    <= #[trigger] segs[k + 1].0 by {
                    lemma_no_overlap(segs, 0, k);
                    lemma_small_mod((segs[k].0 + segs[k].1.len()) as nat, 0x1_0000_0000);
                }
                if data_len_sum(segs) <= usize::MAX {
                    lemma_small_mod(data_len_sum(segs), usize::MAX as nat + 1);
                }
            }
        }
    }
}

} // verus!
