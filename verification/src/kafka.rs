//! Kafka cluster management: the data types of clusters, topics, consumer
//! groups, backups, migrations and queue drains, and the rules by which a
//! cluster configuration, a cluster update or a topic configuration is accepted.
use vstd::prelude::*;
use std::io::{Read, Write};
use crate::errors::{validation_result, AppError};
use crate::text::{concat2, concat3, contains_char, has_prefix, owned, signed_decimal, starts_with, str_eq, i64_decimal};

verus! {

// ===== FILESYSTEM STORAGE STRUCTURES =====

#[derive(Debug, Clone)]
pub struct BackupData {
    pub backup_id: String,
    pub topic: String,
    pub partition: i32,
    pub messages: Vec<BackupMessage>,
    pub checksum: u32,
    pub created_at: String,
}

#[derive(Debug, Clone)]
pub struct BackupMessage {
    pub offset: i64,
    pub timestamp: i64,
    pub key: Option<String>,
    pub value: String,
    pub headers: Option<Vec<(String, String)>>,
}

#[derive(Debug, Clone)]
pub struct BackupMetadata {
    pub backup_id: String,
    pub topic: String,
    pub partitions: Vec<i32>,
    pub total_messages: u64,
    pub compression_type: CompressionType,
    pub created_at: String,
    /// The checksum of the partition stored last.
    pub checksum: u32,
    /// Every partition stored in the backup, each with its message count and
    /// the checksum of its JSON, in the order they were first stored.
    pub partition_records: Vec<PartitionRecord>,
}

/// One partition of a backup as its metadata records it.
#[derive(Debug, Clone, Copy, PartialEq, Eq, Structural)]
pub struct PartitionRecord {
    pub partition: i32,
    pub messages: u64,
    pub checksum: u32,
}

#[derive(Debug, Clone, Copy, PartialEq, Eq, Structural)]
pub enum CompressionType {
    /// Stored as plain JSON, without compression.
    Uncompressed,
    Gzip,
    Snappy,
    Lz4,
}

// ===== COMPRESSION AND CHECKSUMS =====

/// The gzip stream that flate2's `GzEncoder`, at the default level, writes
/// for the bytes.
pub uninterp spec fn gzip_encoded(data: Seq<u8>) -> Seq<u8>;

/// What flate2's `GzDecoder` reads out of the bytes; `None` where it fails.
pub uninterp spec fn gzip_decoded(data: Seq<u8>) -> Option<Seq<u8>>;

/// The framed stream that snap's `FrameEncoder` writes for the bytes.
pub uninterp spec fn snappy_encoded(data: Seq<u8>) -> Seq<u8>;

/// What snap's `FrameDecoder` reads out of the bytes; `None` where it fails.
pub uninterp spec fn snappy_decoded(data: Seq<u8>) -> Option<Seq<u8>>;

/// The LZ4 block that lz4's `block::compress` writes for the bytes, at the
/// default mode and without a size prefix.
pub uninterp spec fn lz4_encoded(data: Seq<u8>) -> Seq<u8>;

/// What lz4's `block::decompress`, given no size, reads out of the bytes
/// (it takes their first four bytes as the size); `None` where it fails.
pub uninterp spec fn lz4_decoded(data: Seq<u8>) -> Option<Seq<u8>>;

/// The CRC-32 that crc32fast's `Hasher` computes over the bytes.
pub uninterp spec fn crc32_of(data: Seq<u8>) -> u32;

/// Which step of an encoder failed, with the error's text.
pub enum CodecFailure {
    Write(String),
    Finish(String),
}

/// Encodes with flate2's `write::GzEncoder` at the default level into a
/// `Vec`: `write_all`, then `finish`. Writing into a `Vec` does not fail, and
/// a fresh encoder's state is sound, so it succeeds; what it writes is
/// named, and reads back with `GzDecoder` as the bytes given.
#[verifier::external_body]
fn gzip_encode(data: &[u8]) -> (r: Result<Vec<u8>, CodecFailure>)
    ensures
        r is Ok,
        r matches Ok(v) ==> v@ == gzip_encoded(data@) && gzip_decoded(v@) == Some(data@),
{
    let mut encoder = flate2::write::GzEncoder::new(Vec::new(), flate2::Compression::default());
    if let Err(e) = encoder.write_all(data) {
        return Err(CodecFailure::Write(e.to_string()));
    }
    encoder.finish().map_err(|e| CodecFailure::Finish(e.to_string()))
}

/// Decodes with flate2's `read::GzDecoder` and `read_to_end`: the bytes it
/// reads are named; it fails exactly where the name holds none.
#[verifier::external_body]
fn gzip_decode(data: &[u8]) -> (r: Result<Vec<u8>, String>)
    ensures
        match r {
            Ok(v) => gzip_decoded(data@) == Some(v@),
            Err(_) => gzip_decoded(data@) is None,
        },
{
    let mut decoded = Vec::new();
    match flate2::read::GzDecoder::new(data).read_to_end(&mut decoded) {
        Ok(_) => Ok(decoded),
        Err(e) => Err(e.to_string()),
    }
}

/// Encodes with snap's `write::FrameEncoder` into a `Vec`: `write_all`,
/// then `into_inner`, which flushes. Its only failures come from the writer,
/// and writing into a `Vec` does not fail, so it succeeds; what it writes is
/// named, and reads back with `FrameDecoder` as the bytes given.
#[verifier::external_body]
fn snappy_encode(data: &[u8]) -> (r: Result<Vec<u8>, CodecFailure>)
    ensures
        r is Ok,
        r matches Ok(v) ==> v@ == snappy_encoded(data@) && snappy_decoded(v@) == Some(data@),
{
    let mut encoder = snap::write::FrameEncoder::new(Vec::new());
    if let Err(e) = encoder.write_all(data) {
        return Err(CodecFailure::Write(e.to_string()));
    }
    encoder.into_inner().map_err(|e| CodecFailure::Finish(e.to_string()))
}

/// Decodes with snap's `read::FrameDecoder` and `read_to_end`: the bytes it
/// reads are named; it fails exactly where the name holds none.
#[verifier::external_body]
fn snappy_decode(data: &[u8]) -> (r: Result<Vec<u8>, String>)
    ensures
        match r {
            Ok(v) => snappy_decoded(data@) == Some(v@),
            Err(_) => snappy_decoded(data@) is None,
        },
{
    let mut decoded = Vec::new();
    match snap::read::FrameDecoder::new(data).read_to_end(&mut decoded) {
        Ok(_) => Ok(decoded),
        Err(e) => Err(e.to_string()),
    }
}

/// The largest input an LZ4 block takes (`LZ4_MAX_INPUT_SIZE`).
pub const LZ4_MAX_INPUT: usize = 0x7E000000;

/// Calls lz4's `block::compress` at the default mode without a size prefix;
/// what it writes is named. It refuses exactly the inputs longer than
/// `LZ4_MAX_INPUT` (for which `LZ4_compressBound` is 0); into a buffer of
/// that bound the compression itself succeeds.
#[verifier::external_body]
fn lz4_encode(data: &[u8]) -> (r: Result<Vec<u8>, String>)
    ensures
        r is Ok <==> data@.len() <= LZ4_MAX_INPUT,
        r matches Ok(v) ==> v@ == lz4_encoded(data@),
{
    lz4::block::compress(data, Some(lz4::block::CompressionMode::DEFAULT), false).map_err(|e| e.to_string())
}

/// Calls lz4's `block::decompress` with no size given: the bytes it reads
/// are named; it fails exactly where the name holds none.
#[verifier::external_body]
fn lz4_decode(data: &[u8]) -> (r: Result<Vec<u8>, String>)
    ensures
        match r {
            Ok(v) => lz4_decoded(data@) == Some(v@),
            Err(_) => lz4_decoded(data@) is None,
        },
{
    lz4::block::decompress(data, None).map_err(|e| e.to_string())
}

/// Runs crc32fast's `Hasher`: `new`, `update` with the bytes, `finalize`.
#[verifier::external_body]
fn crc32(data: &[u8]) -> (r: u32)
    ensures
        r == crc32_of(data@),
{
    let mut hasher = crc32fast::Hasher::new();
    hasher.update(data);
    hasher.finalize()
}

/// The path that `Path::join` builds from `base` and `part`, as text.
pub uninterp spec fn path_joined(base: Seq<char>, part: Seq<char>) -> Seq<char>;

/// Calls std's `Path::join` on texts, and reads the joined path back as
/// text (both parts are text, so nothing is lost).
#[verifier::external_body]
fn join_path(base: &str, part: &str) -> (r: String)
    ensures
        r@ == path_joined(base@, part@),
{
    std::path::Path::new(base).join(part).to_string_lossy().into_owned()
}

/// A copy of the bytes.
fn copy_bytes(data: &[u8]) -> (r: Vec<u8>)
    ensures
        r@ == data@,
{
    let mut r: Vec<u8> = Vec::new();
    for i in 0..data.len()
        invariant
            r@ == data@.take(i as int),
    {
        r.push(data[i]);
        assert(r@ =~= data@.take(i + 1));
    }
    assert(data@.take(data@.len() as int) =~= data@);
    r
}

/// The bytes a backup file holds for `data`, by compression.
pub open spec fn encoded_as(c: CompressionType, data: Seq<u8>) -> Seq<u8> {
    match c {
        CompressionType::Uncompressed => data,
        CompressionType::Gzip => gzip_encoded(data),
        CompressionType::Snappy => snappy_encoded(data),
        CompressionType::Lz4 => lz4_encoded(data),
    }
}

/// The bytes read back out of a backup file, by compression; `None` where
/// the decoder fails.
pub open spec fn decoded_as(c: CompressionType, data: Seq<u8>) -> Option<Seq<u8>> {
    match c {
        CompressionType::Uncompressed => Some(data),
        CompressionType::Gzip => gzip_decoded(data),
        CompressionType::Snappy => snappy_decoded(data),
        CompressionType::Lz4 => lz4_decoded(data),
    }
}

/// The file name extension of a backup partition file.
pub open spec fn extension_of(c: CompressionType) -> Seq<char> {
    match c {
        CompressionType::Gzip => "json.gz"@,
        CompressionType::Snappy => "json.sz"@,
        CompressionType::Lz4 => "json.lz4"@,
        CompressionType::Uncompressed => "json"@,
    }
}

/// The file name of a backup partition file.
pub open spec fn partition_file_name(partition: i32, c: CompressionType) -> Seq<char> {
    "partition_"@ + signed_decimal(partition as int) + "."@ + extension_of(c)
}

/// A backup is stored in a directory of its own under the base path.
pub struct FileSystemStorage {
    base_path: String,
}

impl FileSystemStorage {
    pub closed spec fn spec_base_path(self) -> Seq<char> {
        self.base_path@
    }

    pub fn new(base_path: String) -> (r: Self)
        ensures
            r.spec_base_path() == base_path@,
    {
        Self { base_path }
    }

    /// `<base>/<backup_id>/partition_<n>.<extension>`.
    pub fn get_backup_path(&self, backup_id: &str, partition: i32, compression: &CompressionType) -> (r: String)
        ensures
            r@ == path_joined(
                path_joined(self.spec_base_path(), backup_id@),
                partition_file_name(partition, *compression),
            ),
    {
        let extension = match compression {
            CompressionType::Gzip => "json.gz",
            CompressionType::Snappy => "json.sz",
            CompressionType::Lz4 => "json.lz4",
            CompressionType::Uncompressed => "json",
        };
        let mut name = concat3("partition_", i64_decimal(partition as i64).as_str(), ".");
        name.append(extension);
        let dir = join_path(self.base_path.as_str(), backup_id);
        join_path(dir.as_str(), name.as_str())
    }

    /// The directory under which backups are kept.
    pub fn base_path(&self) -> (r: &str)
        ensures
            r@ == self.spec_base_path(),
    {
        self.base_path.as_str()
    }

    /// `<base>/<backup_id>`: the directory of one backup.
    pub fn backup_dir(&self, backup_id: &str) -> (r: String)
        ensures
            r@ == path_joined(self.spec_base_path(), backup_id@),
    {
        join_path(self.base_path.as_str(), backup_id)
    }

    /// `<base>/<backup_id>/metadata.json`.
    pub fn get_metadata_path(&self, backup_id: &str) -> (r: String)
        ensures
            r@ == path_joined(path_joined(self.spec_base_path(), backup_id@), "metadata.json"@),
    {
        let dir = join_path(self.base_path.as_str(), backup_id);
        join_path(dir.as_str(), "metadata.json")
    }

    /// The bytes of a backup file for `data`. Except with LZ4, they read
    /// back as `data`. Only LZ4 can fail: on inputs longer than it takes.
    pub fn compress_data(&self, data: &[u8], compression: &CompressionType) -> (r: Result<Vec<u8>, AppError>)
        ensures
            r is Ok <==> (*compression != CompressionType::Lz4 || data@.len() <= LZ4_MAX_INPUT),
            r matches Ok(v) ==> v@ == encoded_as(*compression, data@),
            r matches Ok(v) ==> (*compression != CompressionType::Lz4 ==> decoded_as(*compression, v@) == Some(
                data@,
            )),
            *compression == CompressionType::Uncompressed ==> (r matches Ok(v) && v@ == data@),
            r is Err ==> r matches Err(AppError::Internal(_)),
    {
        match compression {
            CompressionType::Uncompressed => Ok(copy_bytes(data)),
            CompressionType::Gzip => match gzip_encode(data) {
                Ok(v) => Ok(v),
                Err(CodecFailure::Write(e)) => Err(AppError::Internal(concat2("Gzip compression failed: ", e.as_str()))),
                Err(CodecFailure::Finish(e)) => Err(
                    AppError::Internal(concat2("Gzip compression finish failed: ", e.as_str())),
                ),
            },
            CompressionType::Snappy => match snappy_encode(data) {
                Ok(v) => Ok(v),
                Err(CodecFailure::Write(e)) => Err(
                    AppError::Internal(concat2("Snappy compression failed: ", e.as_str())),
                ),
                Err(CodecFailure::Finish(e)) => Err(
                    AppError::Internal(concat2("Snappy compression finish failed: ", e.as_str())),
                ),
            },
            CompressionType::Lz4 => match lz4_encode(data) {
                Ok(v) => Ok(v),
                Err(e) => Err(AppError::Internal(concat2("LZ4 compression failed: ", e.as_str()))),
            },
        }
    }

    /// The bytes read back out of a backup file; an internal error where the
    /// decoder fails.
    pub fn decompress_data(&self, data: &[u8], compression: &CompressionType) -> (r: Result<Vec<u8>, AppError>)
        ensures
            match decoded_as(*compression, data@) {
                Some(d) => r matches Ok(v) && v@ == d,
                None => r matches Err(AppError::Internal(_)),
            },
    {
        match compression {
            CompressionType::Uncompressed => Ok(copy_bytes(data)),
            CompressionType::Gzip => match gzip_decode(data) {
                Ok(v) => Ok(v),
                Err(e) => Err(AppError::Internal(concat2("Gzip decompression failed: ", e.as_str()))),
            },
            CompressionType::Snappy => match snappy_decode(data) {
                Ok(v) => Ok(v),
                Err(e) => Err(AppError::Internal(concat2("Snappy decompression failed: ", e.as_str()))),
            },
            CompressionType::Lz4 => match lz4_decode(data) {
                Ok(v) => Ok(v),
                Err(e) => Err(AppError::Internal(concat2("LZ4 decompression failed: ", e.as_str()))),
            },
        }
    }

    /// The CRC-32 of the bytes.
    pub fn calculate_checksum(&self, data: &[u8]) -> (r: u32)
        ensures
            r == crc32_of(data@),
    {
        crc32(data)
    }
}

// ===== BACKUP FILES =====

/// The JSON a backup file yields once decoded and checked against the
/// metadata's checksum; `None` where decoding fails or the checksum differs.
pub open spec fn loaded_json(c: CompressionType, checksum: u32, stored: Seq<u8>) -> Option<Seq<u8>> {
    match decoded_as(c, stored) {
        Some(d) => if crc32_of(d) == checksum {
            Some(d)
        } else {
            None
        },
        None => None,
    }
}

/// Storing then loading gives the stored JSON back: a file whose bytes
/// decode to `json`, checked against the checksum of `json` that the
/// metadata records, loads as `json`. The compressions other than LZ4 write
/// such bytes; LZ4 writes its block without the size prefix that its reader
/// expects.
pub proof fn lemma_store_then_load(c: CompressionType, json: Seq<u8>, stored: Seq<u8>)
    requires
        decoded_as(c, stored) == Some(json),
    ensures
        loaded_json(c, crc32_of(json), stored) == Some(json),
{
}

/// Without compression, the stored bytes are the JSON itself, and it loads
/// back whatever it holds.
pub proof fn lemma_uncompressed_round_trip(json: Seq<u8>)
    ensures
        loaded_json(CompressionType::Uncompressed, crc32_of(json), encoded_as(CompressionType::Uncompressed, json))
            == Some(json),
{
}

/// The position of the first record of partition `p`, from `from` on.
pub open spec fn first_record(recs: Seq<PartitionRecord>, p: i32, from: int) -> Option<int>
    decreases recs.len() - from,
{
    if from < 0 || from >= recs.len() {
        None
    } else if recs[from].partition == p {
        Some(from)
    } else {
        first_record(recs, p, from + 1)
    }
}

/// The checksum that the records hold for partition `p`: that of its first
/// record; `None` where the partition is not recorded.
pub open spec fn checksum_for(recs: Seq<PartitionRecord>, p: i32) -> Option<u32> {
    match first_record(recs, p, 0) {
        Some(i) => Some(recs[i].checksum),
        None => None,
    }
}

/// The records once `r` is stored: it replaces the record of its partition,
/// or is added after the others where the partition is new.
pub open spec fn recorded_after(recs: Seq<PartitionRecord>, r: PartitionRecord) -> Seq<PartitionRecord> {
    match first_record(recs, r.partition, 0) {
        Some(j) => recs.update(j, r),
        None => recs.push(r),
    }
}

/// The messages the records count, in all (held at `u64::MAX`).
pub open spec fn capped_total(recs: Seq<PartitionRecord>) -> u64
    decreases recs.len(),
{
    if recs.len() == 0 {
        0
    } else {
        let t = capped_total(recs.drop_last()) + recs.last().messages;
        if t <= u64::MAX {
            t as u64
        } else {
            u64::MAX
        }
    }
}

/// The records a new store builds on: those of the metadata already kept
/// for the same backup with the same compression; none otherwise.
pub open spec fn prior_records(existing: Option<BackupMetadata>, d: BackupData, c: CompressionType) -> Seq<
    PartitionRecord,
> {
    match existing {
        Some(e) => if e.backup_id@ == d.backup_id@ && e.compression_type == c {
            e.partition_records@
        } else {
            Seq::empty()
        },
        None => Seq::empty(),
    }
}

/// The record that storing `d`, whose JSON is `json`, makes.
pub open spec fn record_of(d: BackupData, json: Seq<u8>) -> PartitionRecord {
    PartitionRecord { partition: d.partition, messages: d.messages@.len() as u64, checksum: crc32_of(json) }
}

/// `m` is the metadata once the backup `d`, stored with compression `c` and
/// whose JSON is `json`, joins the metadata `existing` kept before.
pub open spec fn metadata_holds(
    m: BackupMetadata,
    existing: Option<BackupMetadata>,
    d: BackupData,
    c: CompressionType,
    json: Seq<u8>,
) -> bool {
    &&& m.backup_id@ == d.backup_id@
    &&& m.topic@ == d.topic@
    &&& m.partition_records@ == recorded_after(prior_records(existing, d, c), record_of(d, json))
    &&& m.partitions@ == m.partition_records@.map_values(|r: PartitionRecord| r.partition)
    &&& m.total_messages == capped_total(m.partition_records@)
    &&& m.compression_type == c
    &&& m.created_at@ == d.created_at@
    &&& m.checksum == crc32_of(json)
}

proof fn lemma_first_record_in(recs: Seq<PartitionRecord>, p: i32, from: int)
    ensures
        first_record(recs, p, from) matches Some(i) ==> from <= i < recs.len() && recs[i].partition == p,
    decreases recs.len() - from,
{
    if 0 <= from < recs.len() && recs[from].partition != p {
        lemma_first_record_in(recs, p, from + 1);
    }
}

proof fn lemma_first_record_update(recs: Seq<PartitionRecord>, j: int, r: PartitionRecord, q: i32, from: int)
    requires
        0 <= from,
        0 <= j < recs.len(),
        recs[j].partition == r.partition,
        from <= j ==> first_record(recs, r.partition, from) == Some(j),
    ensures
        q == r.partition && from <= j ==> first_record(recs.update(j, r), q, from) == Some(j),
        q != r.partition ==> first_record(recs.update(j, r), q, from) == first_record(recs, q, from),
    decreases recs.len() - from,
{
    if from < recs.len() {
        lemma_first_record_update(recs, j, r, q, from + 1);
    }
}

proof fn lemma_first_record_push(recs: Seq<PartitionRecord>, r: PartitionRecord, q: i32, from: int)
    requires
        0 <= from <= recs.len(),
        first_record(recs, r.partition, from) is None,
    ensures
        q == r.partition ==> first_record(recs.push(r), q, from) == Some(recs.len() as int),
        q != r.partition ==> first_record(recs.push(r), q, from) == first_record(recs, q, from),
    decreases recs.len() - from,
{
    if from < recs.len() {
        lemma_first_record_push(recs, r, q, from + 1);
    } else {
        assert(recs.push(r)[from] == r);
        assert(first_record(recs.push(r), q, from + 1) is None);
    }
}

/// Storing a partition records its checksum, and leaves the checksums of
/// the other partitions as they were.
pub proof fn lemma_record_keeps_others(recs: Seq<PartitionRecord>, r: PartitionRecord, q: i32)
    ensures
        checksum_for(recorded_after(recs, r), r.partition) == Some(r.checksum),
        q != r.partition ==> checksum_for(recorded_after(recs, r), q) == checksum_for(recs, q),
{
    match first_record(recs, r.partition, 0) {
        Some(j) => {
            lemma_first_record_in(recs, r.partition, 0);
            lemma_first_record_update(recs, j, r, r.partition, 0);
            lemma_first_record_update(recs, j, r, q, 0);
            lemma_first_record_in(recs, q, 0);
        },
        None => {
            lemma_first_record_push(recs, r, r.partition, 0);
            lemma_first_record_push(recs, r, q, 0);
            lemma_first_record_in(recs, q, 0);
        },
    }
}

/// The records after storing, one after another from no metadata, the
/// partitions `(partition, message count, JSON)` of one backup.
pub open spec fn records_after_stores(stores: Seq<(i32, u64, Seq<u8>)>) -> Seq<PartitionRecord>
    decreases stores.len(),
{
    if stores.len() == 0 {
        Seq::empty()
    } else {
        let s = stores.last();
        recorded_after(
            records_after_stores(stores.drop_last()),
            PartitionRecord { partition: s.0, messages: s.1, checksum: crc32_of(s.2) },
        )
    }
}

/// Every partition of a backup loads back as the JSON stored for it last:
/// after the partitions of one backup are stored one after another, a
/// partition file whose bytes decode to the JSON of its last store passes
/// the checksum the metadata holds for that partition, and loads as that
/// JSON. (Gzip, Snappy and uncompressed files decode so; an LZ4 file is
/// written without the size prefix its reader expects.)
pub proof fn lemma_every_stored_partition_loads_back(
    stores: Seq<(i32, u64, Seq<u8>)>,
    k: int,
    c: CompressionType,
    bytes: Seq<u8>,
)
    requires
        0 <= k < stores.len(),
        forall|l: int| k < l < stores.len() ==> (#[trigger] stores[l]).0 != stores[k].0,
        decoded_as(c, bytes) == Some(stores[k].2),
    ensures
        checksum_for(records_after_stores(stores), stores[k].0) == Some(crc32_of(stores[k].2)),
        loaded_json(c, crc32_of(stores[k].2), bytes) == Some(stores[k].2),
    decreases stores.len(),
{
    let n = stores.len();
    let s = stores.last();
    let r = PartitionRecord { partition: s.0, messages: s.1, checksum: crc32_of(s.2) };
    let before = records_after_stores(stores.drop_last());
    lemma_record_keeps_others(before, r, stores[k].0);
    if k < n - 1 {
        assert(stores[n - 1].0 != stores[k].0);
        assert forall|l: int| k < l < stores.drop_last().len() implies (#[trigger] stores.drop_last()[l]).0
            != stores.drop_last()[k].0 by {
            assert(stores.drop_last()[l] == stores[l]);
        }
        lemma_every_stored_partition_loads_back(stores.drop_last(), k, c, bytes);
    }
}

fn record_position(recs: &Vec<PartitionRecord>, p: i32) -> (r: Option<usize>)
    ensures
        match r {
            Some(j) => first_record(recs@, p, 0) == Some(j as int) && j < recs@.len(),
            None => first_record(recs@, p, 0) is None,
        },
{
    let mut j: usize = 0;
    while j < recs.len()
        invariant
            j <= recs@.len(),
            first_record(recs@, p, 0) == first_record(recs@, p, j as int),
        decreases recs@.len() - j,
    {
        if recs[j].partition == p {
            return Some(j);
        }
        j = j + 1;
    }
    None
}

impl FileSystemStorage {
    /// The metadata stored beside a backup once the partition `backup_data`,
    /// whose JSON is `json_data`, is stored with `compression`, given the
    /// metadata already kept for the backup, if any: the partition's record
    /// (its message count and the checksum of its JSON) replaces the one it
    /// had or joins the others; the partitions and the total follow the
    /// records.
    pub fn backup_metadata(
        &self,
        existing: Option<&BackupMetadata>,
        backup_data: &BackupData,
        compression: &CompressionType,
        json_data: &[u8],
    ) -> (r: BackupMetadata)
        ensures
            metadata_holds(
                r,
                match existing {
                    Some(e) => Some(*e),
                    None => None,
                },
                *backup_data,
                *compression,
                json_data@,
            ),
    {
        let ghost ex = match existing {
            Some(e) => Some(*e),
            None => None::<BackupMetadata>,
        };
        let mut records: Vec<PartitionRecord> = Vec::new();
        match existing {
            Some(e) => {
                if str_eq(e.backup_id.as_str(), backup_data.backup_id.as_str()) && e.compression_type
                    == *compression {
                    records = e.partition_records.clone();
                    assert(records@ =~= e.partition_records@);
                }
            },
            None => {},
        }
        assert(records@ == prior_records(ex, *backup_data, *compression));
        let checksum = self.calculate_checksum(json_data);
        let record = PartitionRecord {
            partition: backup_data.partition,
            messages: backup_data.messages.len() as u64,
            checksum,
        };
        let ghost prior = records@;
        match record_position(&records, record.partition) {
            Some(j) => {
                records.set(j, record);
            },
            None => {
                records.push(record);
            },
        }
        assert(records@ == recorded_after(prior, record));
        let mut partitions: Vec<i32> = Vec::new();
        let mut total: u64 = 0;
        let mut i: usize = 0;
        while i < records.len()
            invariant
                i <= records@.len(),
                partitions@ == records@.take(i as int).map_values(|r: PartitionRecord| r.partition),
                total == capped_total(records@.take(i as int)),
            decreases records@.len() - i,
        {
            assert(records@.take(i as int + 1).drop_last() =~= records@.take(i as int));
            partitions.push(records[i].partition);
            total = total.saturating_add(records[i].messages);
            i = i + 1;
            assert(partitions@ =~= records@.take(i as int).map_values(|r: PartitionRecord| r.partition));
        }
        assert(records@.take(records@.len() as int) =~= records@);
        BackupMetadata {
            backup_id: backup_data.backup_id.clone(),
            topic: backup_data.topic.clone(),
            partitions,
            total_messages: total,
            compression_type: *compression,
            created_at: backup_data.created_at.clone(),
            checksum,
            partition_records: records,
        }
    }

    /// The checksum the metadata records for a partition.
    pub fn recorded_checksum(&self, metadata: &BackupMetadata, partition: i32) -> (r: Option<u32>)
        ensures
            r == checksum_for(metadata.partition_records@, partition),
    {
        match record_position(&metadata.partition_records, partition) {
            Some(j) => Some(metadata.partition_records[j].checksum),
            None => None,
        }
    }

    /// The JSON of a stored partition file: decoded, then checked against
    /// the checksum the metadata records for that partition; a partition the
    /// metadata does not record does not load.
    pub fn verified_backup_json(&self, stored: &[u8], metadata: &BackupMetadata, partition: i32) -> (r: Result<
        Vec<u8>,
        AppError,
    >)
        ensures
            match checksum_for(metadata.partition_records@, partition) {
                None => r matches Err(AppError::Internal(m)) && m@ == "Backup partition "@ + signed_decimal(
                    partition as int,
                ) + " is not recorded in the metadata"@,
                Some(sum) => match loaded_json(metadata.compression_type, sum, stored@) {
                    Some(j) => r matches Ok(v) && v@ == j,
                    None => r matches Err(AppError::Internal(m)) && (decoded_as(metadata.compression_type, stored@)
                        is Some ==> m@ == "Backup data checksum verification failed"@),
                },
            },
    {
        let sum = match self.recorded_checksum(metadata, partition) {
            Some(c) => c,
            None => {
                return Err(
                    AppError::Internal(
                        concat3(
                            "Backup partition ",
                            i64_decimal(partition as i64).as_str(),
                            " is not recorded in the metadata",
                        ),
                    ),
                );
            },
        };
        let json = self.decompress_data(stored, &metadata.compression_type)?;
        if self.calculate_checksum(json.as_slice()) != sum {
            return Err(AppError::Internal(owned("Backup data checksum verification failed")));
        }
        Ok(json)
    }

    /// Whether a stored partition file passes the checksum recorded for its
    /// partition (a partition not recorded does not); an internal error
    /// where it does not decode.
    pub fn partition_checks_out(&self, stored: &[u8], metadata: &BackupMetadata, partition: i32) -> (r: Result<
        bool,
        AppError,
    >)
        ensures
            match decoded_as(metadata.compression_type, stored@) {
                Some(d) => r == Ok::<bool, AppError>(checksum_for(metadata.partition_records@, partition) == Some(
                    crc32_of(d),
                )),
                None => r matches Err(AppError::Internal(_)),
            },
    {
        let json = self.decompress_data(stored, &metadata.compression_type)?;
        let sum = self.calculate_checksum(json.as_slice());
        match self.recorded_checksum(metadata, partition) {
            Some(c) => Ok(c == sum),
            None => Ok(false),
        }
    }
}

/// A backup is listed for `topic` when no topic is asked for, or when it is
/// the backup's topic.
pub fn metadata_matches_topic(topic: Option<&str>, metadata: &BackupMetadata) -> (r: bool)
    ensures
        r == match topic {
            Some(t) => t@ == metadata.topic@,
            None => true,
        },
{
    match topic {
        Some(t) => str_eq(t, metadata.topic.as_str()),
        None => true,
    }
}

// ===== CLUSTER, TOPIC AND CONSUMER TYPES =====

/// The stored connection settings of a Kafka cluster.
#[derive(Debug, Clone)]
pub struct KafkaClusterConfig {
    pub id: String,
    pub name: String,
    pub bootstrap_servers: Vec<String>,
    pub sasl_username: Option<String>,
    pub sasl_password: Option<String>,
    pub sasl_mechanism: Option<String>,
    pub security_protocol: String,
}

#[derive(Debug)]
pub struct KafkaCluster {
    pub id: String,
    pub name: String,
    pub bootstrap_servers: Vec<String>,
    pub sasl_username: Option<String>,
    pub sasl_password: Option<String>,
    pub sasl_mechanism: Option<String>,
    pub security_protocol: String,
}

#[derive(Debug, Clone)]
pub struct KafkaTopic {
    pub name: String,
    pub partitions: i32,
    pub replication_factor: i16,
    pub configs: Option<Vec<(String, String)>>,
}

#[derive(Debug, Clone)]
pub struct KafkaMessage {
    pub key: Option<String>,
    pub value: String,
    pub headers: Option<Vec<(String, String)>>,
}

#[derive(Debug, Clone)]
pub struct ConsumeOptions {
    pub group_id: String,
    pub max_messages: Option<u64>,
    pub timeout_ms: Option<u64>,
    pub from_beginning: Option<bool>,
}

#[derive(Debug, Clone)]
pub struct ConsumerGroup {
    pub group_id: String,
    pub is_simple: bool,
    pub state: String,
    pub members: Vec<ConsumerGroupMember>,
    pub offsets: Vec<ConsumerGroupOffset>,
}

#[derive(Debug, Clone)]
pub struct ConsumerGroupMember {
    pub id: String,
    pub client_id: String,
    pub client_host: String,
    pub assignments: Vec<ConsumerGroupAssignment>,
}

#[derive(Debug, Clone)]
pub struct ConsumerGroupAssignment {
    pub topic: String,
    pub partition: i32,
}

#[derive(Debug, Clone)]
pub struct ConsumerGroupOffset {
    pub topic: String,
    pub partition: i32,
    pub offset: i64,
    pub lag: i64,
}

#[derive(Debug, Clone)]
pub struct OffsetReset {
    pub partitions: Vec<PartitionOffset>,
    pub to_earliest: Option<bool>,
    pub to_latest: Option<bool>,
    pub to_offset: Option<i64>,
}

#[derive(Debug, Clone)]
pub struct PartitionOffset {
    pub partition: i32,
    pub offset: Option<i64>,
}

// ===== BACKUP, RESTORE, MIGRATION AND DRAIN TYPES =====

#[derive(Debug)]
pub struct MessageBackupRequest {
    pub topic: String,
    /// `None` means all partitions.
    pub partitions: Option<Vec<i32>>,
    /// `None` means earliest.
    pub start_offset: Option<i64>,
    /// `None` means latest.
    pub end_offset: Option<i64>,
    /// Limit on the number of messages.
    pub max_messages: Option<u64>,
    /// Default true.
    pub include_headers: Option<bool>,
    /// Default true.
    pub include_timestamps: Option<bool>,
}

#[derive(Debug)]
pub struct MessageBackupResponse {
    pub topic: String,
    pub partitions_backed_up: Vec<i32>,
    pub total_messages: u64,
    pub start_time: String,
    pub end_time: String,
    pub backup_id: String,
}

#[derive(Debug)]
pub struct MessageRestoreRequest {
    pub target_topic: String,
    pub backup_id: String,
    /// Which partitions to restore.
    pub partitions: Option<Vec<i32>>,
    /// Default true.
    pub preserve_timestamps: Option<bool>,
    /// Default true.
    pub preserve_keys: Option<bool>,
    /// Default true.
    pub preserve_headers: Option<bool>,
}

#[derive(Debug)]
pub struct MessageRestoreResponse {
    pub target_topic: String,
    pub messages_restored: u64,
    pub partitions_restored: Vec<i32>,
    pub start_time: String,
    pub end_time: String,
}

#[derive(Debug)]
pub struct MessageMigrationRequest {
    pub source_topic: String,
    pub target_topic: String,
    pub source_cluster_id: String,
    pub target_cluster_id: String,
    /// `None` means all partitions.
    pub partitions: Option<Vec<i32>>,
    /// `None` means earliest.
    pub start_offset: Option<i64>,
    /// `None` means latest.
    pub end_offset: Option<i64>,
    /// Keep the same partition assignment.
    pub preserve_partitioning: Option<bool>,
    pub transform_messages: Option<MessageTransformation>,
}

#[derive(Debug)]
pub struct MessageTransformation {
    pub key_prefix: Option<String>,
    pub header_additions: Option<Vec<(String, String)>>,
    /// A script or template.
    pub value_transformation: Option<String>,
}

#[derive(Debug)]
pub struct MessageMigrationResponse {
    pub source_topic: String,
    pub target_topic: String,
    pub messages_migrated: u64,
    pub partitions_migrated: Vec<i32>,
    pub start_time: String,
    pub end_time: String,
    pub status: MigrationStatus,
}

#[derive(Debug)]
pub enum MigrationStatus {
    Completed,
    InProgress,
    Failed(String),
}

#[derive(Debug)]
pub struct QueueDrainRequest {
    pub topics: Vec<String>,
    pub consumer_group: String,
    /// How long to wait.
    pub timeout_seconds: Option<u64>,
    /// How often to check lag.
    pub check_interval_ms: Option<u64>,
    /// Acceptable lag before considering drained.
    pub max_lag_threshold: Option<i64>,
}

#[derive(Debug)]
pub struct QueueDrainResponse {
    pub topics: Vec<String>,
    pub consumer_group: String,
    pub total_lag_start: i64,
    pub total_lag_end: i64,
    pub drain_duration_seconds: u64,
    pub is_drained: bool,
    pub partitions_status: Vec<PartitionDrainStatus>,
}

#[derive(Debug)]
pub struct PartitionDrainStatus {
    pub topic: String,
    pub partition: i32,
    pub lag_start: i64,
    pub lag_end: i64,
    pub is_drained: bool,
}

#[derive(Debug, Clone)]
pub struct TopicPartitionInfo {
    pub id: i32,
    pub leader: i32,
    pub replicas: Vec<i32>,
    pub isr: Vec<i32>,
    pub offsets: PartitionOffsets,
}

#[derive(Debug, Clone)]
pub struct PartitionOffsets {
    pub earliest: i64,
    pub latest: i64,
}

#[derive(Debug, Clone)]
pub struct ClusterUpdateRequest {
    pub name: Option<String>,
    pub bootstrap_servers: Option<Vec<String>>,
    pub sasl_username: Option<String>,
    pub sasl_password: Option<String>,
    pub sasl_mechanism: Option<String>,
    pub security_protocol: Option<String>,
}

#[derive(Debug, Clone)]
pub struct TopicConfigUpdateRequest {
    pub configs: Vec<(String, String)>,
    pub validate_only: Option<bool>,
}

#[derive(Debug, Clone)]
pub struct PartitionAdditionRequest {
    pub count: i32,
    pub validate_only: Option<bool>,
}

#[derive(Debug, Clone)]
pub struct BrokerStatus {
    pub id: i32,
    pub host: String,
    pub port: i32,
    pub is_controller: bool,
    pub rack: Option<String>,
}

// ===== VALIDATION =====

/// The security protocols a cluster may use.
pub open spec fn valid_protocol(p: Seq<char>) -> bool {
    p == "PLAINTEXT"@ || p == "SSL"@ || p == "SASL_PLAINTEXT"@ || p == "SASL_SSL"@
}

/// The SASL mechanisms a cluster may use.
pub open spec fn valid_mechanism(m: Seq<char>) -> bool {
    m == "PLAIN"@ || m == "SCRAM-SHA-256"@ || m == "SCRAM-SHA-512"@ || m == "GSSAPI"@
}

/// The index of the first bootstrap server without a `:`.
pub open spec fn first_without_port(servers: Seq<String>, k: int) -> Option<int>
    decreases servers.len() - k,
{
    if k < 0 || k >= servers.len() {
        None
    } else if !servers[k]@.contains(':') {
        Some(k)
    } else {
        first_without_port(servers, k + 1)
    }
}

/// Why a bootstrap server list is refused, if it is.
pub open spec fn servers_error(servers: Seq<String>) -> Option<Seq<char>> {
    if servers.len() == 0 {
        Some("Bootstrap servers cannot be empty"@)
    } else {
        match first_without_port(servers, 0) {
            Some(i) => Some(
                "Invalid bootstrap server format: "@ + servers[i]@ + ". Expected host:port"@,
            ),
            None => None,
        }
    }
}

/// Why a security protocol is refused, if it is.
pub open spec fn protocol_error(p: Seq<char>) -> Option<Seq<char>> {
    if valid_protocol(p) {
        None
    } else {
        Some(
            "Invalid security protocol: "@ + p
                + ". Valid options: [\"PLAINTEXT\", \"SSL\", \"SASL_PLAINTEXT\", \"SASL_SSL\"]"@,
        )
    }
}

/// Why a cluster configuration is refused, if it is: the first failing rule
/// of servers, protocol, SASL credentials and SASL mechanism.
pub open spec fn cluster_config_error(c: KafkaClusterConfig) -> Option<Seq<char>> {
    match servers_error(c.bootstrap_servers@) {
        Some(m) => Some(m),
        None => match protocol_error(c.security_protocol@) {
            Some(m) => Some(m),
            None => if has_prefix(c.security_protocol@, "SASL_"@) {
                if c.sasl_username is None || c.sasl_password is None {
                    Some("SASL username and password are required for SASL authentication"@)
                } else {
                    match c.sasl_mechanism {
                        Some(m) => if valid_mechanism(m@) {
                            None
                        } else {
                            Some(
                                "Invalid SASL mechanism: "@ + m@
                                    + ". Valid options: [\"PLAIN\", \"SCRAM-SHA-256\", \"SCRAM-SHA-512\", \"GSSAPI\"]"@,
                            )
                        },
                        None => None,
                    }
                }
            } else {
                None
            },
        },
    }
}

fn check_servers(servers: &Vec<String>) -> (r: Result<(), AppError>)
    ensures
        validation_result(r, servers_error(servers@)),
{
    if servers.len() == 0 {
        return Err(AppError::Validation(owned("Bootstrap servers cannot be empty")));
    }
    for i in 0..servers.len()
        invariant
            servers@.len() > 0,
            first_without_port(servers@, 0) == first_without_port(servers@, i as int),
    {
        if !contains_char(servers[i].as_str(), ':') {
            return Err(
                AppError::Validation(
                    concat3(
                        "Invalid bootstrap server format: ",
                        servers[i].as_str(),
                        ". Expected host:port",
                    ),
                ),
            );
        }
    }
    Ok(())
}

fn check_protocol(p: &str) -> (r: Result<(), AppError>)
    ensures
        validation_result(r, protocol_error(p@)),
{
    if str_eq(p, "PLAINTEXT") || str_eq(p, "SSL") || str_eq(p, "SASL_PLAINTEXT") || str_eq(
        p,
        "SASL_SSL",
    ) {
        Ok(())
    } else {
        Err(
            AppError::Validation(
                concat3(
                    "Invalid security protocol: ",
                    p,
                    ". Valid options: [\"PLAINTEXT\", \"SSL\", \"SASL_PLAINTEXT\", \"SASL_SSL\"]",
                ),
            ),
        )
    }
}

/// Validate Kafka cluster configuration.
pub fn validate_cluster_config(config: &KafkaClusterConfig) -> (r: Result<(), AppError>)
    ensures
        validation_result(r, cluster_config_error(*config)),
{
    match check_servers(&config.bootstrap_servers) {
        Err(e) => return Err(e),
        Ok(()) => {},
    }
    match check_protocol(config.security_protocol.as_str()) {
        Err(e) => return Err(e),
        Ok(()) => {},
    }
    if starts_with(config.security_protocol.as_str(), "SASL_") {
        if config.sasl_username.is_none() || config.sasl_password.is_none() {
            return Err(
                AppError::Validation(
                    owned("SASL username and password are required for SASL authentication"),
                ),
            );
        }
        match &config.sasl_mechanism {
            Some(mechanism) => {
                let m = mechanism.as_str();
                if !(str_eq(m, "PLAIN") || str_eq(m, "SCRAM-SHA-256") || str_eq(m, "SCRAM-SHA-512")
                    || str_eq(m, "GSSAPI")) {
                    return Err(
                        AppError::Validation(
                            concat3(
                                "Invalid SASL mechanism: ",
                                m,
                                ". Valid options: [\"PLAIN\", \"SCRAM-SHA-256\", \"SCRAM-SHA-512\", \"GSSAPI\"]",
                            ),
                        ),
                    );
                }
            },
            None => {},
        }
    }
    Ok(())
}

/// Why a cluster update is refused, if it is: the servers it sets, then the
/// protocol it sets.
pub open spec fn cluster_update_error(u: ClusterUpdateRequest) -> Option<Seq<char>> {
    match u.bootstrap_servers {
        Some(servers) => match servers_error(servers@) {
            Some(m) => Some(m),
            None => match u.security_protocol {
                Some(p) => protocol_error(p@),
                None => None,
            },
        },
        None => match u.security_protocol {
            Some(p) => protocol_error(p@),
            None => None,
        },
    }
}

/// Validate the fields that a cluster update sets.
pub fn validate_cluster_update(update_req: &ClusterUpdateRequest) -> (r: Result<(), AppError>)
    ensures
        validation_result(r, cluster_update_error(*update_req)),
{
    match &update_req.bootstrap_servers {
        Some(servers) => match check_servers(servers) {
            Err(e) => return Err(e),
            Ok(()) => {},
        },
        None => {},
    }
    match &update_req.security_protocol {
        Some(p) => check_protocol(p.as_str()),
        None => Ok(()),
    }
}

/// The index of the first topic setting with an empty key or an empty value.
pub open spec fn first_empty_setting(configs: Seq<(String, String)>, k: int) -> Option<int>
    decreases configs.len() - k,
{
    if k < 0 || k >= configs.len() {
        None
    } else if configs[k].0@.len() == 0 || configs[k].1@.len() == 0 {
        Some(k)
    } else {
        first_empty_setting(configs, k + 1)
    }
}

/// Why topic settings are refused, if they are.
pub open spec fn topic_configs_error(configs: Seq<(String, String)>) -> Option<Seq<char>> {
    match first_empty_setting(configs, 0) {
        Some(i) => if configs[i].0@.len() == 0 {
            Some("Configuration key cannot be empty"@)
        } else {
            Some("Configuration value for key '"@ + configs[i].0@ + "' cannot be empty"@)
        },
        None => None,
    }
}

/// Validate topic settings without applying them: every key and every value
/// must be non-empty.
pub fn validate_topic_configs(configs: &Vec<(String, String)>) -> (r: Result<(), AppError>)
    ensures
        validation_result(r, topic_configs_error(configs@)),
{
    for i in 0..configs.len()
        invariant
            first_empty_setting(configs@, 0) == first_empty_setting(configs@, i as int),
    {
        let (key, value) = &configs[i];
        if key.as_str().is_empty() {
            return Err(AppError::Validation(owned("Configuration key cannot be empty")));
        }
        if value.as_str().is_empty() {
            return Err(
                AppError::Validation(
                    concat3("Configuration value for key '", key.as_str(), "' cannot be empty"),
                ),
            );
        }
    }
    Ok(())
}

// ===== CLIENT SETTINGS =====

/// The servers joined with `,`.
pub open spec fn joined(servers: Seq<String>) -> Seq<char>
    decreases servers.len(),
{
    if servers.len() == 0 {
        Seq::empty()
    } else if servers.len() == 1 {
        servers[0]@
    } else {
        joined(servers.drop_last()) + ","@ + servers.last()@
    }
}

/// The client settings for a cluster, in the order in which they are set.
pub open spec fn client_settings_spec(c: KafkaClusterConfig) -> Seq<(Seq<char>, Seq<char>)> {
    let sasl: Seq<(Seq<char>, Seq<char>)> = match (c.sasl_username, c.sasl_password) {
        (Some(u), Some(p)) => seq![("sasl.username"@, u@), ("sasl.password"@, p@)] + match c.sasl_mechanism {
            Some(m) => seq![("sasl.mechanism"@, m@)],
            None => Seq::empty(),
        },
        _ => Seq::empty(),
    };
    seq![("bootstrap.servers"@, joined(c.bootstrap_servers@))] + sasl + seq![
        ("security.protocol"@, c.security_protocol@),
        ("request.timeout.ms"@, "30000"@),
        ("message.timeout.ms"@, "300000"@),
        ("socket.timeout.ms"@, "60000"@),
    ]
}

/// The settings as characters.
pub open spec fn settings_view(s: Seq<(String, String)>) -> Seq<(Seq<char>, Seq<char>)> {
    s.map_values(|p: (String, String)| (p.0@, p.1@))
}

fn join_servers(servers: &Vec<String>) -> (r: String)
    ensures
        r@ == joined(servers@),
{
    let mut r = String::new();
    for i in 0..servers.len()
        invariant
            r@ == joined(servers@.take(i as int)),
    {
        assert(servers@.take(i + 1).drop_last() =~= servers@.take(i as int));
        if i > 0 {
            r.append(",");
        }
        r.append(servers[i].as_str());
        proof {
            if i == 0 {
                assert(r@ =~= joined(servers@.take(1)));
            }
        }
    }
    assert(servers@.take(servers@.len() as int) =~= servers@);
    r
}

/// Kafka client configuration for a cluster: the servers, the SASL
/// credentials when both are set (with the mechanism when it is set), the
/// security protocol, and the reliability timeouts.
pub fn client_settings(cluster: &KafkaClusterConfig) -> (r: Vec<(String, String)>)
    ensures
        settings_view(r@) == client_settings_spec(*cluster),
{
    let mut r: Vec<(String, String)> = Vec::new();
    r.push((owned("bootstrap.servers"), join_servers(&cluster.bootstrap_servers)));
    match (&cluster.sasl_username, &cluster.sasl_password) {
        (Some(username), Some(password)) => {
            r.push((owned("sasl.username"), username.clone()));
            r.push((owned("sasl.password"), password.clone()));
            match &cluster.sasl_mechanism {
                Some(mechanism) => r.push((owned("sasl.mechanism"), mechanism.clone())),
                None => {},
            }
        },
        _ => {},
    }
    r.push((owned("security.protocol"), cluster.security_protocol.clone()));
    r.push((owned("request.timeout.ms"), owned("30000")));
    r.push((owned("message.timeout.ms"), owned("300000")));
    r.push((owned("socket.timeout.ms"), owned("60000")));
    assert(settings_view(r@) =~= client_settings_spec(*cluster));
    r
}

/// A SASL cluster needs both credentials: a configuration whose protocol
/// starts with `SASL_` is refused when its username or its password is
/// missing (either one alone suffices), and one that is accepted has both;
/// once its servers and protocol pass, the refusal names the credentials.
pub proof fn lemma_sasl_needs_both_credentials(c: KafkaClusterConfig)
    requires
        has_prefix(c.security_protocol@, "SASL_"@),
    ensures
        (c.sasl_username is None || c.sasl_password is None) ==> cluster_config_error(c) is Some,
        cluster_config_error(c) is None ==> (c.sasl_username is Some && c.sasl_password is Some),
        (c.sasl_username is None || c.sasl_password is None) && servers_error(c.bootstrap_servers@) is None
            && protocol_error(c.security_protocol@) is None ==> cluster_config_error(c) == Some(
            "SASL username and password are required for SASL authentication"@,
        ),
{
}

} // verus!
