//! Bundle archives: opening the fetched payload as a zip archive and
//! extracting its entries.
//!
//! Extraction is a batch: every entry is attempted, a failing entry leaves a
//! warning instead of aborting, and the caller gets both the extracted
//! entries and the warnings. The zip crate does the parsing and inflating;
//! everything around its three calls is verified.

use vstd::prelude::*;
use vstd::string::*;
use crate::text::ends_with;
use crate::text::is_confined_name;
use crate::text::name_is_confined;
use crate::text::str_ends_with;

verus! {

/// What names the archive's entries carry, in index order.
pub uninterp spec fn zip_names(z: zip::ZipArchive<std::io::Cursor<Vec<u8>>>) -> Seq<Seq<char>>;

/// What bytes the archive's entries inflate to, in index order; a directory
/// entry inflates to nothing.
pub uninterp spec fn zip_datas(z: zip::ZipArchive<std::io::Cursor<Vec<u8>>>) -> Seq<Seq<u8>>;

/// Which of the archive's entries can be read at all, in index order. The
/// archive sits wholly in memory, so whether an entry reads back (supported
/// method, not encrypted, checksum holds) is a property of the value alone.
pub uninterp spec fn zip_readable(z: zip::ZipArchive<std::io::Cursor<Vec<u8>>>) -> Seq<bool>;

/// Whether a byte string parses as a zip archive.
pub uninterp spec fn zip_parses(bytes: Seq<u8>) -> bool;

/// The entry names a byte string parses to.
pub uninterp spec fn parsed_names(bytes: Seq<u8>) -> Seq<Seq<char>>;

/// The entry data streams a byte string parses to.
pub uninterp spec fn parsed_datas(bytes: Seq<u8>) -> Seq<Seq<u8>>;

#[verifier::external_type_specification]
#[verifier::external_body]
#[verifier::reject_recursive_types(R)]
pub struct ExZipArchive<R>(zip::ZipArchive<R>);

#[verifier::external_type_specification]
#[verifier::external_body]
#[verifier::reject_recursive_types(T)]
pub struct ExCursor<T>(std::io::Cursor<T>);

/// Relies on zip::ZipArchive::new: parses the central directory of a zip
/// archive held in memory. The bytes are all it looks at, so whether the
/// parse succeeds, and what entries it yields, are functions of the bytes
/// alone; an archive has one name, one data stream and one readability flag
/// per entry.
#[verifier::external_body]
fn zip_open(bytes: Vec<u8>) -> (r: Result<zip::ZipArchive<std::io::Cursor<Vec<u8>>>, String>)
    ensures
        r is Ok <==> zip_parses(bytes@),
        r matches Ok(z) ==> zip_names(z) == parsed_names(bytes@) && zip_datas(z) == parsed_datas(
            bytes@,
        ) && zip_names(z).len() == zip_datas(z).len() && zip_readable(z).len() == zip_names(
            z,
        ).len(),
{
    zip::ZipArchive::new(std::io::Cursor::new(bytes)).map_err(|e| e.to_string())
}

/// Relies on zip::ZipArchive::len: the number of entries the archive holds.
#[verifier::external_body]
fn zip_len(z: &zip::ZipArchive<std::io::Cursor<Vec<u8>>>) -> (r: usize)
    ensures
        r == zip_names(*z).len(),
        r == zip_datas(*z).len(),
{
    z.len()
}

/// Relies on zip::ZipArchive::by_index, zip::read::ZipFile::name and
/// std::io::Read::read_to_end: yields entry `i`'s name and inflated bytes,
/// reading from the archive without changing what it holds. On the in-memory
/// archive the read succeeds exactly when the entry is readable (supported
/// method, not encrypted, checksum holds): nothing outside the value decides.
#[verifier::external_body]
fn zip_entry(z: &mut zip::ZipArchive<std::io::Cursor<Vec<u8>>>, i: usize) -> (r: Result<
    (String, Vec<u8>),
    String,
>)
    requires
        i < zip_names(*old(z)).len(),
    ensures
        zip_names(*final(z)) == zip_names(*old(z)),
        zip_datas(*final(z)) == zip_datas(*old(z)),
        zip_readable(*final(z)) == zip_readable(*old(z)),
        r is Ok <==> zip_readable(*old(z))[i as int],
        r matches Ok(e) ==> e.0@ == zip_names(*old(z))[i as int] && e.1@ == zip_datas(*old(z))[
            i as int
        ],
{
    match z.by_index(i) {
        Ok(mut f) => {
            let name = f.name().to_string();
            let mut data = Vec::new();
            match std::io::Read::read_to_end(&mut f, &mut data) {
                Ok(_) => Ok((name, data)),
                Err(e) => Err(e.to_string()),
            }
        },
        Err(e) => Err(e.to_string()),
    }
}

/// One extracted archive entry. A trailing slash in the name marks a
/// directory to create; anything else is a file to write.
pub struct BundleEntry {
    pub name: String,
    pub is_dir: bool,
    pub data: Vec<u8>,
}

/// `e` is entry carrying the given name and bytes, with the directory flag
/// matching the name's trailing slash.
pub open spec fn entry_matches(e: BundleEntry, name: Seq<char>, data: Seq<u8>) -> bool {
    &&& e.name@ == name
    &&& e.data@ == data
    &&& e.is_dir == ends_with(name, "/"@)
}

/// Everything one extraction attempt produced: the entries that could be
/// read, and one warning per entry that could not. The ghost `sources` map
/// says which archive index each entry came from.
pub struct ExtractionBatch {
    pub entries: Vec<BundleEntry>,
    pub warnings: Vec<String>,
    pub sources: Ghost<Seq<int>>,
}

/// How many of the first `upto` archive indices are kept by an extraction:
/// those whose entry is readable and whose name stays inside the directory
/// it is extracted into.
pub open spec fn kept_count(
    names: Seq<Seq<char>>,
    readable: Seq<bool>,
    upto: int,
) -> nat
    decreases upto,
{
    if upto <= 0 {
        0
    } else {
        kept_count(names, readable, upto - 1) + if readable[upto - 1] && is_confined_name(
            names[upto - 1],
        ) {
            1nat
        } else {
            0nat
        }
    }
}

/// The batch covers an archive with the given names, data streams and
/// readability flags: every index produced either an entry or a warning;
/// each entry carries the name and bytes of a readable, confined archive
/// entry; the archive's order is kept; and — because the entry count equals
/// the number of readable confined indices and the sources are strictly
/// increasing — every readable confined entry is present.
pub open spec fn extraction_complete(
    b: ExtractionBatch,
    names: Seq<Seq<char>>,
    datas: Seq<Seq<u8>>,
    readable: Seq<bool>,
) -> bool {
    &&& b.entries@.len() + b.warnings@.len() == names.len()
    &&& b.sources@.len() == b.entries@.len()
    &&& b.entries@.len() == kept_count(names, readable, names.len() as int)
    &&& forall|k: int| #![trigger b.sources@[k]]
        0 <= k < b.entries@.len() ==> 0 <= b.sources@[k] < names.len()
            && readable[b.sources@[k]] && is_confined_name(names[b.sources@[k]])
            && entry_matches(b.entries@[k], names[b.sources@[k]], datas[b.sources@[k]])
    &&& forall|k1: int, k2: int| #![trigger b.sources@[k1], b.sources@[k2]]
        0 <= k1 < k2 < b.sources@.len() ==> b.sources@[k1] < b.sources@[k2]
}

/// Open a fetched bundle payload as an archive. Succeeds exactly when the
/// bytes parse as a zip archive, and the archive's entries are then a
/// function of the bytes alone.
pub fn open_bundle(bytes: Vec<u8>) -> (r: Result<
    zip::ZipArchive<std::io::Cursor<Vec<u8>>>,
    String,
>)
    ensures
        r is Ok <==> zip_parses(bytes@),
        r matches Ok(z) ==> zip_names(z) == parsed_names(bytes@) && zip_datas(z) == parsed_datas(
            bytes@,
        ) && zip_names(z).len() == zip_datas(z).len() && zip_readable(z).len() == zip_names(
            z,
        ).len(),
{
    zip_open(bytes)
}

/// Extract every entry of the archive. Each index yields either an entry or
/// a warning — never both, never neither — so a single unreadable entry
/// cannot abort the batch. Exactly the readable entries whose names stay
/// inside the install directory come back as entries; an unreadable entry,
/// or one whose name would climb out, leaves a warning instead.
pub fn extract_bundle(z: &mut zip::ZipArchive<std::io::Cursor<Vec<u8>>>) -> (r: ExtractionBatch)
    requires
        zip_names(*old(z)).len() == zip_datas(*old(z)).len(),
        zip_readable(*old(z)).len() == zip_names(*old(z)).len(),
    ensures
        zip_names(*final(z)) == zip_names(*old(z)),
        zip_datas(*final(z)) == zip_datas(*old(z)),
        zip_readable(*final(z)) == zip_readable(*old(z)),
        extraction_complete(r, zip_names(*old(z)), zip_datas(*old(z)), zip_readable(*old(z))),
{
    let ghost names = zip_names(*z);
    let ghost datas = zip_datas(*z);
    let ghost readable = zip_readable(*z);
    let ghost mut idxs: Seq<int> = Seq::empty();
    let mut entries: Vec<BundleEntry> = Vec::new();
    let mut warnings: Vec<String> = Vec::new();
    let n = zip_len(z);
    let mut i: usize = 0;
    while i < n
        invariant
            i <= n,
            n == names.len(),
            names.len() == datas.len(),
            readable.len() == names.len(),
            zip_names(*z) == names,
            zip_datas(*z) == datas,
            zip_readable(*z) == readable,
            entries@.len() + warnings@.len() == i,
            idxs.len() == entries@.len(),
            entries@.len() == kept_count(names, readable, i as int),
            forall|k: int|
                0 <= k < entries@.len() ==> 0 <= #[trigger] idxs[k] < names.len()
                    && readable[idxs[k]] && is_confined_name(names[idxs[k]])
                    && entry_matches(entries@[k], names[idxs[k]], datas[idxs[k]]),
            forall|k: int| 0 <= k < idxs.len() ==> #[trigger] idxs[k] < i,
            forall|k1: int, k2: int| #![trigger idxs[k1], idxs[k2]]
                0 <= k1 < k2 < idxs.len() ==> idxs[k1] < idxs[k2],
        decreases n - i,
    {
        match zip_entry(z, i) {
            Ok((name, data)) => {
                if name_is_confined(name.as_str()) {
                    let is_dir = str_ends_with(name.as_str(), "/");
                    let entry = BundleEntry { name, is_dir, data };
                    entries.push(entry);
                    proof {
                        idxs = idxs.push(i as int);
                    }
                } else {
                    let mut warning = String::from_str("entry escapes the install directory: ");
                    warning.append(name.as_str());
                    warnings.push(warning);
                }
            },
            Err(e) => {
                warnings.push(e);
            },
        }
        i += 1;
    }
    let batch = ExtractionBatch { entries, warnings, sources: Ghost(idxs) };
    proof {
        assert forall|k: int| #![trigger batch.sources@[k]]
            0 <= k < batch.entries@.len() implies 0 <= batch.sources@[k] < names.len()
            && readable[batch.sources@[k]] && is_confined_name(names[batch.sources@[k]])
            && entry_matches(
            batch.entries@[k],
            names[batch.sources@[k]],
            datas[batch.sources@[k]],
        ) by {
            assert(0 <= idxs[k] < names.len() && readable[idxs[k]] && is_confined_name(
                names[idxs[k]],
            ) && entry_matches(batch.entries@[k], names[idxs[k]], datas[idxs[k]]));
        }
        assert forall|k1: int, k2: int| #![trigger batch.sources@[k1], batch.sources@[k2]]
            0 <= k1 < k2 < batch.sources@.len() implies batch.sources@[k1]
            < batch.sources@[k2] by {
            assert(idxs[k1] < idxs[k2]);
        }
        assert(extraction_complete(batch, names, datas, readable));
    }
    batch
}

} // verus!
