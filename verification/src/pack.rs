use vstd::prelude::*;

use crate::faces::{map_texture_number_to_file_number, spec_file_number, FACE_COUNT};
use crate::image::{decode_png_rgb8, png_rgb8_decoding, RgbImage};

verus! {

/// Where a resource pack keeps the title-screen panorama images.
pub const PATH_IN_PACK: &'static str = "assets/minecraft/textures/gui/title/background";

/// The decimal digit of `n`, for `0 <= n < 10`.
pub open spec fn decimal_digit(n: int) -> char {
    (n + 48) as char
}

/// `panorama_<n>.png`, the name of panorama image `n`.
pub open spec fn spec_panorama_file_name(n: int) -> Seq<char> {
    "panorama_"@ + seq![decimal_digit(n)] + ".png"@
}

/// `<PATH_IN_PACK>/panorama_<n>.png`, where a resource pack keeps image `n`.
pub open spec fn spec_pack_entry_name(n: int) -> Seq<char> {
    PATH_IN_PACK@ + "/"@ + spec_panorama_file_name(n)
}

/// The one-character text of a decimal digit.
pub(crate) fn digit_text(n: i32) -> (s: &'static str)
    requires
        0 <= n < 10,
    ensures
        s@ == seq![decimal_digit(n as int)],
{
    match n {
        0 => {
            proof {
                reveal_strlit("0");
            }
            "0"
        },
        1 => {
            proof {
                reveal_strlit("1");
            }
            "1"
        },
        2 => {
            proof {
                reveal_strlit("2");
            }
            "2"
        },
        3 => {
            proof {
                reveal_strlit("3");
            }
            "3"
        },
        4 => {
            proof {
                reveal_strlit("4");
            }
            "4"
        },
        5 => {
            proof {
                reveal_strlit("5");
            }
            "5"
        },
        6 => {
            proof {
                reveal_strlit("6");
            }
            "6"
        },
        7 => {
            proof {
                reveal_strlit("7");
            }
            "7"
        },
        8 => {
            proof {
                reveal_strlit("8");
            }
            "8"
        },
        _ => {
            proof {
                reveal_strlit("9");
            }
            "9"
        },
    }
}

/// The file name of panorama image `image_number`: `panorama_<image_number>.png`.
pub fn panorama_file_name(image_number: i32) -> (name: String)
    requires
        0 <= image_number < 10,
    ensures
        name@ == spec_panorama_file_name(image_number as int),
{
    let mut name = String::from_str("panorama_");
    name.append(digit_text(image_number));
    name.append(".png");
    name
}

/// Where a resource pack keeps panorama image `image_number`:
/// `assets/minecraft/textures/gui/title/background/panorama_<image_number>.png`.
pub fn pack_entry_name(image_number: i32) -> (name: String)
    requires
        0 <= image_number < 10,
    ensures
        name@ == spec_pack_entry_name(image_number as int),
{
    let mut name = String::from_str(PATH_IN_PACK);
    name.append("/");
    let file = panorama_file_name(image_number);
    name.append(file.as_str());
    name
}

/// The bytes of `.zip`.
pub open spec fn zip_suffix() -> Seq<u8> {
    seq![46u8, 122u8, 105u8, 112u8]
}

/// A file name whose extension (as `std::path::Path::extension` finds it: the
/// part after the last `.`, when that `.` is not the name's first byte) is `zip`.
pub open spec fn spec_has_zip_extension(file_name: Seq<u8>) -> bool {
    file_name.len() > 4 && file_name.subrange(file_name.len() - 4, file_name.len() as int) == zip_suffix()
}

/// The extension test agrees with the rule of `std::path::Path::extension`: the
/// name has a `.` that is not its first byte, no `.` after it, and `zip` after it.
pub proof fn lemma_zip_extension_rule(name: Seq<u8>)
    ensures
        spec_has_zip_extension(name) <==> exists|k: int|
            0 < k < name.len() && #[trigger] name[k] == 46u8 && (forall|j: int| k < j < name.len() ==> name[j] != 46u8)
                && name.subrange(k + 1, name.len() as int) == seq![122u8, 105u8, 112u8],
{
    let n = name.len() as int;
    if spec_has_zip_extension(name) {
        let k = n - 4;
        assert(name[k] == name.subrange(n - 4, n)[0]);
        assert forall|j: int| k < j < n implies name[j] != 46u8 by {
            assert(name[j] == name.subrange(n - 4, n)[j - k]);
        }
        assert(name.subrange(k + 1, n) =~= seq![122u8, 105u8, 112u8]) by {
            assert forall|j: int| 0 <= j < 3 implies #[trigger] name.subrange(k + 1, n)[j] == name.subrange(n - 4, n)[j + 1] by {}
        }
    }
    if exists|k: int|
        0 < k < name.len() && #[trigger] name[k] == 46u8 && (forall|j: int| k < j < name.len() ==> name[j] != 46u8)
            && name.subrange(k + 1, name.len() as int) == seq![122u8, 105u8, 112u8] {
        let k = choose|k: int|
            0 < k < name.len() && #[trigger] name[k] == 46u8 && (forall|j: int| k < j < name.len() ==> name[j] != 46u8)
                && name.subrange(k + 1, name.len() as int) == seq![122u8, 105u8, 112u8];
        assert(name.subrange(k + 1, n).len() == 3);
        assert(k == n - 4);
        assert(name.subrange(n - 4, n) =~= zip_suffix()) by {
            assert forall|j: int| 1 <= j < 4 implies #[trigger] name.subrange(n - 4, n)[j] == name.subrange(k + 1, n)[j - 1] by {}
        }
    }
}

/// Whether a file name has the extension `zip`.
pub fn has_zip_extension(file_name: &[u8]) -> (r: bool)
    ensures
        r == spec_has_zip_extension(file_name@),
{
    let n = file_name.len();
    if n <= 4 {
        return false;
    }
    let r = file_name[n - 4] == 46u8 && file_name[n - 3] == 122u8 && file_name[n - 2] == 105u8
        && file_name[n - 1] == 112u8;
    proof {
        let tail = file_name@.subrange(n - 4, n as int);
        if r {
            assert(tail =~= zip_suffix());
        } else {
            assert(tail[0] != 46u8 || tail[1] != 122u8 || tail[2] != 105u8 || tail[3] != 112u8);
        }
    }
    r
}


// ---------------------------------------------------------------------------
// Zip archives
// ---------------------------------------------------------------------------

/// The `Display` text of the error `zip::ZipArchive::new` reports for these
/// archive bytes, or `None` when it opens them.
pub uninterp spec fn zip_archive_error(archive: Seq<u8>) -> Option<Seq<char>>;

/// The `Debug` text of the error `zip::ZipArchive::by_name` reports for this
/// entry name in the archive opened from these bytes, or `None` when it finds the
/// entry.
pub uninterp spec fn zip_entry_lookup_error(archive: Seq<u8>, name: Seq<char>) -> Option<Seq<char>>;

/// The contents of the entry of this name in the archive opened from these bytes,
/// or the `Display` text of the first error met on the way.
pub uninterp spec fn zip_entry_contents(archive: Seq<u8>, name: Seq<char>) -> Result<Seq<u8>, Seq<char>>;

/// Opens a zip archive held in memory with `zip::ZipArchive::new`.
/// Trusted: the outcome is the one `zip_archive_error` names for these bytes.
#[verifier::external_body]
fn zip_open_error(archive: &[u8]) -> (r: Option<String>)
    ensures
        match r {
            Some(e) => zip_archive_error(archive@) == Some(e@),
            None => zip_archive_error(archive@) is None,
        },
{
    zip::ZipArchive::new(std::io::Cursor::new(archive)).err().map(|e| e.to_string())
}

/// Looks an entry up with `zip::ZipArchive::by_name` in the archive opened from
/// these bytes (should the archive not open, the text of that error is returned).
/// Trusted: the outcome is the one `zip_entry_lookup_error` names.
#[verifier::external_body]
fn zip_lookup_error(archive: &[u8], name: &str) -> (r: Option<String>)
    ensures
        match r {
            Some(e) => zip_entry_lookup_error(archive@, name@) == Some(e@),
            None => zip_entry_lookup_error(archive@, name@) is None,
        },
{
    match zip::ZipArchive::new(std::io::Cursor::new(archive)) {
        Ok(mut zip) => zip.by_name(name).err().map(|e| format!("{e:?}")),
        Err(e) => Some(e.to_string()),
    }
}

/// Reads an entry of a zip archive held in memory: `zip::ZipArchive::new`, then
/// `by_name`, then `std::io::Read::read_to_end` on the entry.
/// Trusted: the outcome is the one `zip_entry_contents` names.
#[verifier::external_body]
fn zip_read_entry(archive: &[u8], name: &str) -> (r: Result<Vec<u8>, String>)
    ensures
        match r {
            Ok(bytes) => zip_entry_contents(archive@, name@) == Ok::<Seq<u8>, Seq<char>>(bytes@),
            Err(e) => zip_entry_contents(archive@, name@) == Err::<Seq<u8>, Seq<char>>(e@),
        },
{
    let mut zip = zip::ZipArchive::new(std::io::Cursor::new(archive)).map_err(|e| e.to_string())?;
    let mut entry = zip.by_name(name).map_err(|e| e.to_string())?;
    let mut buf = Vec::new();
    std::io::Read::read_to_end(&mut entry, &mut buf).map_err(|e| e.to_string())?;
    Ok(buf)
}

// ---------------------------------------------------------------------------
// Finding the panorama images
// ---------------------------------------------------------------------------

/// How the six panorama images are stored under the root path.
#[derive(Debug, Clone, Copy, PartialEq, Eq, Structural)]
pub enum PanoramaPathType {
    /// `<root>/panorama_<n>.png`
    BaseFolder,
    /// `<root>/<PATH_IN_PACK>/panorama_<n>.png`
    PackFolder,
    /// entries `<PATH_IN_PACK>/panorama_<n>.png` of the zip file `<root>`
    PackZip,
}

/// A root path together with the way the panorama images are stored under it.
pub struct PanoramaPath {
    root: String,
    path_type: PanoramaPathType,
}

/// What was found at the root path, gathered by the caller from the file system.
pub enum RootProbe {
    /// The root is a file with the extension `zip` (see `has_zip_extension`):
    /// its bytes, or the `Debug` text of the error met opening it.
    ZipFile(Result<Vec<u8>, String>),
    /// The root is not such a file: which of `<root>/<PATH_IN_PACK>/panorama_<n>.png`
    /// and which of `<root>/panorama_<n>.png` exist, for `n` from 0 to 5.
    Folder { pack_files_exist: [bool; 6], plain_files_exist: [bool; 6] },
}

/// `failed to open file <root>: <error>`
pub open spec fn open_failure_message(root: Seq<char>, error: Seq<char>) -> Seq<char> {
    "failed to open file "@ + root + ": "@ + error
}

/// `failed to read zip file: <error>`
pub open spec fn zip_failure_message(error: Seq<char>) -> Seq<char> {
    "failed to read zip file: "@ + error
}

/// `failed to find <entry> in zip file: <error>`
pub open spec fn missing_entry_message(entry: Seq<char>, error: Seq<char>) -> Seq<char> {
    "failed to find "@ + entry + " in zip file: "@ + error
}

/// `no panorama images found in <root> or <root>/<PATH_IN_PACK>`
pub open spec fn not_found_message(root: Seq<char>) -> Seq<char> {
    "no panorama images found in "@ + root + " or "@ + root + "/"@ + PATH_IN_PACK@
}

/// Checks the pack entries of images `first` to 5 in order: the message for the
/// first one the archive lacks, if any.
pub open spec fn spec_zip_entries_check(archive: Seq<u8>, first: int) -> Result<(), Seq<char>>
    decreases 6 - first,
{
    if first >= 6 || first < 0 {
        Ok(())
    } else {
        match zip_entry_lookup_error(archive, spec_pack_entry_name(first)) {
            Some(e) => Err(missing_entry_message(spec_pack_entry_name(first), e)),
            None => spec_zip_entries_check(archive, first + 1),
        }
    }
}

/// A zip file holds a resource pack with the six panorama images: it opens as
/// an archive, and has the entries of images 0 to 5.
pub open spec fn spec_zip_pack_check(archive: Seq<u8>) -> Result<(), Seq<char>> {
    match zip_archive_error(archive) {
        Some(e) => Err(zip_failure_message(e)),
        None => spec_zip_entries_check(archive, 0),
    }
}

/// The storage `find_paths` settles on for what was found at the root, or the
/// message of its failure. A zip file is used when it holds the pack; else a
/// resource-pack folder when it has all six images; else a plain folder when it
/// has all six.
pub open spec fn spec_find_paths(root: Seq<char>, probe: RootProbe) -> Result<PanoramaPathType, Seq<char>> {
    match probe {
        RootProbe::ZipFile(Err(e)) => Err(open_failure_message(root, e@)),
        RootProbe::ZipFile(Ok(bytes)) => match spec_zip_pack_check(bytes@) {
            Ok(()) => Ok(PanoramaPathType::PackZip),
            Err(m) => Err(m),
        },
        RootProbe::Folder { pack_files_exist, plain_files_exist } => if forall|i: int|
            0 <= i < 6 ==> #[trigger] pack_files_exist@[i] {
            Ok(PanoramaPathType::PackFolder)
        } else if forall|i: int| 0 <= i < 6 ==> #[trigger] plain_files_exist@[i] {
            Ok(PanoramaPathType::BaseFolder)
        } else {
            Err(not_found_message(root))
        },
    }
}

/// Checks that zip archive bytes hold the six panorama images of a resource pack.
fn check_zip_pack(archive: &[u8]) -> (r: Result<(), String>)
    ensures
        match r {
            Ok(()) => spec_zip_pack_check(archive@) is Ok,
            Err(m) => spec_zip_pack_check(archive@) == Err::<(), Seq<char>>(m@),
        },
{
    if let Some(e) = zip_open_error(archive) {
        let mut m = String::from_str("failed to read zip file: ");
        m.append(e.as_str());
        return Err(m);
    }
    let mut i: i32 = 0;
    while i < 6
        invariant
            0 <= i <= 6,
            zip_archive_error(archive@) is None,
            spec_zip_pack_check(archive@) == spec_zip_entries_check(archive@, i as int),
        decreases 6 - i,
    {
        let entry = pack_entry_name(i);
        if let Some(e) = zip_lookup_error(archive, entry.as_str()) {
            let mut m = String::from_str("failed to find ");
            m.append(entry.as_str());
            m.append(" in zip file: ");
            m.append(e.as_str());
            return Err(m);
        }
        i = i + 1;
    }
    Ok(())
}

/// All six flags are set.
fn all_set(flags: &[bool; 6]) -> (r: bool)
    ensures
        r == forall|i: int| 0 <= i < 6 ==> #[trigger] flags@[i],
{
    let mut i: usize = 0;
    while i < 6
        invariant
            i <= 6,
            flags@.len() == 6,
            forall|k: int| 0 <= k < i ==> #[trigger] flags@[k],
        decreases 6 - i,
    {
        if !flags[i] {
            return false;
        }
        i = i + 1;
    }
    true
}

impl PanoramaPath {
    /// The root path.
    pub closed spec fn spec_root(&self) -> Seq<char> {
        self.root@
    }

    /// How the images are stored under the root.
    pub closed spec fn spec_path_type(&self) -> PanoramaPathType {
        self.path_type
    }

    /// The root path.
    pub fn root(&self) -> (r: &str)
        ensures
            r@ == self.spec_root(),
    {
        self.root.as_str()
    }

    /// How the images are stored under the root.
    pub fn path_type(&self) -> (r: PanoramaPathType)
        ensures
            r == self.spec_path_type(),
    {
        self.path_type
    }

    /// Settles where the panorama images are under `root`, from what was found
    /// there: a resource-pack zip file, a resource-pack folder, or a folder that
    /// holds the images themselves, tried in that order.
    pub fn find_paths(root: &str, probe: RootProbe) -> (r: Result<PanoramaPath, String>)
        ensures
            match r {
                Ok(path) => path.spec_root() == root@ && spec_find_paths(root@, probe) == Ok::<
                    PanoramaPathType,
                    Seq<char>,
                >(path.spec_path_type()),
                Err(m) => spec_find_paths(root@, probe) == Err::<PanoramaPathType, Seq<char>>(m@),
            },
            probe matches RootProbe::Folder { pack_files_exist, plain_files_exist } ==> {
                &&& (forall|i: int| 0 <= i < 6 ==> #[trigger] pack_files_exist@[i]) ==> (r matches Ok(path)
                    && path.spec_path_type() == PanoramaPathType::PackFolder)
                &&& (!(forall|i: int| 0 <= i < 6 ==> #[trigger] pack_files_exist@[i]) && (forall|i: int|
                    0 <= i < 6 ==> #[trigger] plain_files_exist@[i])) ==> (r matches Ok(path)
                    && path.spec_path_type() == PanoramaPathType::BaseFolder)
                &&& r is Err <==> (!(forall|i: int| 0 <= i < 6 ==> #[trigger] pack_files_exist@[i]) && !(forall|
                    i: int,
                | 0 <= i < 6 ==> #[trigger] plain_files_exist@[i]))
            },
            probe matches RootProbe::ZipFile(Ok(bytes)) ==> (r is Ok <==> (zip_archive_error(bytes@) is None
                && forall|n: int| 0 <= n < 6 ==> #[trigger] zip_entry_lookup_error(bytes@, spec_pack_entry_name(n))
                is None)),
            probe matches RootProbe::ZipFile(Ok(bytes)) ==> (r matches Ok(path) ==> path.spec_path_type()
                == PanoramaPathType::PackZip),
            probe matches RootProbe::ZipFile(Err(_)) ==> r is Err,
            r matches Ok(path) ==> path.spec_root() == root@,
    {
        proof {
            lemma_find_paths_choice(root@, probe);
        }
        let path_type = match probe {
            RootProbe::ZipFile(Err(e)) => {
                let mut m = String::from_str("failed to open file ");
                m.append(root);
                m.append(": ");
                m.append(e.as_str());
                return Err(m);
            },
            RootProbe::ZipFile(Ok(bytes)) => {
                match check_zip_pack(bytes.as_slice()) {
                    Ok(()) => PanoramaPathType::PackZip,
                    Err(m) => {
                        return Err(m);
                    },
                }
            },
            RootProbe::Folder { pack_files_exist, plain_files_exist } => {
                if all_set(&pack_files_exist) {
                    PanoramaPathType::PackFolder
                } else if all_set(&plain_files_exist) {
                    PanoramaPathType::BaseFolder
                } else {
                    let mut m = String::from_str("no panorama images found in ");
                    m.append(root);
                    m.append(" or ");
                    m.append(root);
                    m.append("/");
                    m.append(PATH_IN_PACK);
                    return Err(m);
                }
            },
        };
        Ok(PanoramaPath { root: String::from_str(root), path_type })
    }
}


// ---------------------------------------------------------------------------
// Loading the images, face by face
// ---------------------------------------------------------------------------

/// Where the bytes of one panorama image are read from.
#[derive(Debug, Clone, PartialEq, Eq)]
pub enum ImageSource {
    /// A PNG file at this path, relative to the root.
    File(String),
    /// The PNG entry of this name inside the zip file at the root.
    ZipEntry(String),
}

/// Where the bytes of image `image_number` are read from, for each storage.
pub open spec fn spec_image_source(path_type: PanoramaPathType, image_number: int) -> (bool, Seq<char>) {
    match path_type {
        PanoramaPathType::BaseFolder => (false, spec_panorama_file_name(image_number)),
        PanoramaPathType::PackFolder => (false, spec_pack_entry_name(image_number)),
        PanoramaPathType::PackZip => (true, spec_pack_entry_name(image_number)),
    }
}

impl ImageSource {
    /// Whether the image is a zip entry, and the path or entry name.
    pub open spec fn spec_location(&self) -> (bool, Seq<char>) {
        match self {
            ImageSource::File(path) => (false, path@),
            ImageSource::ZipEntry(name) => (true, name@),
        }
    }
}

/// `failed to open image <path>: <error>`
pub open spec fn image_open_failure_message(path: Seq<char>, error: Seq<char>) -> Seq<char> {
    "failed to open image "@ + path + ": "@ + error
}

/// `failed to decode image: <error>`
pub open spec fn decode_failure_message(error: Seq<char>) -> Seq<char> {
    "failed to decode image: "@ + error
}

/// The outcome of decoding PNG bytes, failures turned into messages.
pub open spec fn spec_decoded(bytes: Seq<u8>) -> Result<(u32, u32, Seq<u8>), Seq<char>> {
    match png_rgb8_decoding(bytes) {
        Ok(img) => Ok(img),
        Err(e) => Err(decode_failure_message(e)),
    }
}

/// The image `load_image` makes of a source and of what was fetched for it: for
/// a file, its bytes or the text of the error opening it; for a zip entry, the
/// bytes of the zip file or the text of the error opening that.
pub open spec fn spec_load_image(source: (bool, Seq<char>), fetched: Result<Seq<u8>, Seq<char>>) -> Result<
    (u32, u32, Seq<u8>),
    Seq<char>,
> {
    match fetched {
        Err(e) => if source.0 {
            Err(e)
        } else {
            Err(image_open_failure_message(source.1, e))
        },
        Ok(bytes) => if source.0 {
            match zip_entry_contents(bytes, source.1) {
                Ok(png) => spec_decoded(png),
                Err(e) => Err(e),
            }
        } else {
            spec_decoded(bytes)
        },
    }
}

/// Decodes PNG bytes, turning a failure into `failed to decode image: <error>`.
fn decode_image(png: &[u8]) -> (r: Result<RgbImage, String>)
    ensures
        match r {
            Ok(img) => img.wf() && spec_decoded(png@) == Ok::<(u32, u32, Seq<u8>), Seq<char>>(
                (img.width, img.height, img.data@),
            ),
            Err(m) => spec_decoded(png@) == Err::<(u32, u32, Seq<u8>), Seq<char>>(m@),
        },
{
    match decode_png_rgb8(png) {
        Ok(img) => Ok(img),
        Err(e) => {
            let mut m = String::from_str("failed to decode image: ");
            m.append(e.as_str());
            Err(m)
        },
    }
}

/// Makes an image of what was fetched for a source: for a file, its bytes or the
/// text of the error opening it; for a zip entry, the bytes of the zip file at
/// the root or the text of the error opening that.
pub fn load_image(source: &ImageSource, fetched: Result<Vec<u8>, String>) -> (r: Result<RgbImage, String>)
    ensures
        match r {
            Ok(img) => img.wf() && spec_load_image(
                source.spec_location(),
                match fetched {
                    Ok(b) => Ok(b@),
                    Err(e) => Err(e@),
                },
            ) == Ok::<(u32, u32, Seq<u8>), Seq<char>>((img.width, img.height, img.data@)),
            Err(m) => spec_load_image(
                source.spec_location(),
                match fetched {
                    Ok(b) => Ok(b@),
                    Err(e) => Err(e@),
                },
            ) == Err::<(u32, u32, Seq<u8>), Seq<char>>(m@),
        },
        source matches ImageSource::File(path) ==> match fetched {
            Err(e) => (r matches Err(m) && m@ == "failed to open image "@ + path@ + ": "@ + e@),
            Ok(bytes) => match png_rgb8_decoding(bytes@) {
                Ok(t) => (r matches Ok(img) && (img.width, img.height, img.data@) == t),
                Err(e) => (r matches Err(m) && m@ == "failed to decode image: "@ + e),
            },
        },
        source matches ImageSource::ZipEntry(name) ==> match fetched {
            Err(e) => (r matches Err(m) && m@ == e@),
            Ok(archive) => match zip_entry_contents(archive@, name@) {
                Err(e) => (r matches Err(m) && m@ == e),
                Ok(png) => match png_rgb8_decoding(png) {
                    Ok(t) => (r matches Ok(img) && (img.width, img.height, img.data@) == t),
                    Err(e) => (r matches Err(m) && m@ == "failed to decode image: "@ + e),
                },
            },
        },
{
    proof {
        let ghost bytes = if fetched is Ok {
            fetched->Ok_0@
        } else {
            Seq::empty()
        };
        let ghost error = if fetched is Err {
            fetched->Err_0@
        } else {
            Seq::empty()
        };
        lemma_load_image_outcomes(source.spec_location().1, bytes, error);
    }
    match source {
        ImageSource::File(path) => match fetched {
            Err(e) => {
                let mut m = String::from_str("failed to open image ");
                m.append(path.as_str());
                m.append(": ");
                m.append(e.as_str());
                Err(m)
            },
            Ok(bytes) => decode_image(bytes.as_slice()),
        },
        ImageSource::ZipEntry(name) => match fetched {
            Err(e) => Err(e),
            Ok(archive) => match zip_read_entry(archive.as_slice(), name.as_str()) {
                Err(e) => Err(e),
                Ok(png) => decode_image(png.as_slice()),
            },
        },
    }
}

/// Walks the six cube-map faces in order, naming the panorama image each needs.
pub struct PanoramaImageIter<'a> {
    path: &'a PanoramaPath,
    index: u8,
}

impl<'a> PanoramaImageIter<'a> {
    /// The panorama being walked.
    pub closed spec fn spec_path(&self) -> &'a PanoramaPath {
        self.path
    }

    /// How many faces have been walked.
    pub closed spec fn spec_index(&self) -> int {
        self.index as int
    }

    /// The number of the image the next face needs, or `None` once all six faces
    /// have been walked; then it stays `None`.
    pub fn next_image_number(&mut self) -> (r: Option<i32>)
        ensures
            final(self).spec_path() == old(self).spec_path(),
            r is Some <==> 0 <= old(self).spec_index() < FACE_COUNT,
            r matches Some(n) ==> spec_file_number(old(self).spec_index()) == Some(n as int),
            r is Some ==> final(self).spec_index() == old(self).spec_index() + 1,
            r is None ==> final(self).spec_index() == old(self).spec_index(),
    {
        let image_number = map_texture_number_to_file_number(self.index)?;
        self.index = self.index + 1;
        Some(image_number)
    }

    /// Where the bytes of image `image_number` are read from.
    pub fn image_source(&self, image_number: i32) -> (source: ImageSource)
        requires
            0 <= image_number < FACE_COUNT,
        ensures
            source.spec_location() == spec_image_source(self.spec_path().spec_path_type(), image_number as int),
    {
        match self.path.path_type {
            PanoramaPathType::BaseFolder => ImageSource::File(panorama_file_name(image_number)),
            PanoramaPathType::PackFolder => ImageSource::File(pack_entry_name(image_number)),
            PanoramaPathType::PackZip => ImageSource::ZipEntry(pack_entry_name(image_number)),
        }
    }
}

impl PanoramaPath {
    /// Starts walking the cube-map faces.
    pub fn iter(&self) -> (it: PanoramaImageIter<'_>)
        ensures
            it.spec_path() == self,
            it.spec_index() == 0,
    {
        PanoramaImageIter { path: self, index: 0 }
    }
}


/// A zip file that passes the pack check has the entry of every image from `first` on.
proof fn lemma_entries_check_finds(archive: Seq<u8>, first: int, n: int)
    requires
        0 <= first <= n < 6,
        spec_zip_entries_check(archive, first) is Ok,
    ensures
        zip_entry_lookup_error(archive, spec_pack_entry_name(n)) is None,
    decreases n - first,
{
    if first < n {
        lemma_entries_check_finds(archive, first + 1, n);
    }
}

/// The images the faces are loaded from are the ones `find_paths` found: once
/// it has settled on a storage, the source of every image number is a file whose
/// existence the probe reported, or an entry the zip archive was seen to hold.
pub proof fn lemma_sources_were_found(root: Seq<char>, probe: RootProbe, n: int)
    requires
        0 <= n < FACE_COUNT,
        spec_find_paths(root, probe) is Ok,
    ensures
        ({
            let path_type = spec_find_paths(root, probe)->Ok_0;
            let source = spec_image_source(path_type, n);
            match path_type {
                PanoramaPathType::PackFolder => probe matches RootProbe::Folder { pack_files_exist, .. }
                    && pack_files_exist@[n] && source == (false, spec_pack_entry_name(n)),
                PanoramaPathType::BaseFolder => probe matches RootProbe::Folder { plain_files_exist, .. }
                    && plain_files_exist@[n] && source == (false, spec_panorama_file_name(n)),
                PanoramaPathType::PackZip => probe matches RootProbe::ZipFile(Ok(bytes))
                    && zip_entry_lookup_error(bytes@, source.1) is None && source.0,
            }
        }),
{
    match probe {
        RootProbe::ZipFile(Ok(bytes)) => {
            lemma_entries_check_finds(bytes@, 0, n);
        },
        _ => {},
    }
}


/// A zip file passes the pack check exactly when it opens and holds the entries
/// of all six images.
proof fn lemma_zip_pack_check(archive: Seq<u8>)
    ensures
        spec_zip_pack_check(archive) is Ok <==> (zip_archive_error(archive) is None && forall|n: int|
            0 <= n < 6 ==> #[trigger] zip_entry_lookup_error(archive, spec_pack_entry_name(n)) is None),
{
    if spec_zip_pack_check(archive) is Ok {
        assert forall|n: int| 0 <= n < 6 implies #[trigger] zip_entry_lookup_error(
            archive,
            spec_pack_entry_name(n),
        ) is None by {
            lemma_entries_check_finds(archive, 0, n);
        }
    } else if zip_archive_error(archive) is None {
        let n = lemma_entries_check_fails(archive, 0);
        assert(zip_entry_lookup_error(archive, spec_pack_entry_name(n)) is Some);
    }
}

/// A failing entry check names an image whose entry is missing.
proof fn lemma_entries_check_fails(archive: Seq<u8>, first: int) -> (n: int)
    requires
        0 <= first,
        spec_zip_entries_check(archive, first) is Err,
    ensures
        first <= n < 6,
        zip_entry_lookup_error(archive, spec_pack_entry_name(n)) is Some,
    decreases 6 - first,
{
    if zip_entry_lookup_error(archive, spec_pack_entry_name(first)) is Some {
        first
    } else {
        lemma_entries_check_fails(archive, first + 1)
    }
}

/// How `find_paths` chooses, whatever the root's text (the empty one included):
/// a folder whose six resource-pack images all exist is a pack folder; otherwise
/// one whose six plain images all exist is a plain folder; the choice fails only
/// when neither set is complete. A zip file is a pack exactly when it opens and
/// holds the six entries, and a zip file that could not be read is a failure.
pub proof fn lemma_find_paths_choice(root: Seq<char>, probe: RootProbe)
    ensures
        probe matches RootProbe::Folder { pack_files_exist, plain_files_exist } ==> {
            &&& (forall|i: int| 0 <= i < 6 ==> #[trigger] pack_files_exist@[i]) ==> spec_find_paths(root, probe)
                == Ok::<PanoramaPathType, Seq<char>>(PanoramaPathType::PackFolder)
            &&& (!(forall|i: int| 0 <= i < 6 ==> #[trigger] pack_files_exist@[i]) && (forall|i: int|
                0 <= i < 6 ==> #[trigger] plain_files_exist@[i])) ==> spec_find_paths(root, probe) == Ok::<
                PanoramaPathType,
                Seq<char>,
            >(PanoramaPathType::BaseFolder)
            &&& spec_find_paths(root, probe) is Err <==> (!(forall|i: int|
                0 <= i < 6 ==> #[trigger] pack_files_exist@[i]) && !(forall|i: int|
                0 <= i < 6 ==> #[trigger] plain_files_exist@[i]))
        },
        probe matches RootProbe::ZipFile(Ok(bytes)) ==> {
            &&& spec_find_paths(root, probe) is Ok <==> (zip_archive_error(bytes@) is None && forall|n: int|
                0 <= n < 6 ==> #[trigger] zip_entry_lookup_error(bytes@, spec_pack_entry_name(n)) is None)
            &&& spec_find_paths(root, probe) is Ok ==> spec_find_paths(root, probe) == Ok::<
                PanoramaPathType,
                Seq<char>,
            >(PanoramaPathType::PackZip)
        },
        probe matches RootProbe::ZipFile(Err(_)) ==> spec_find_paths(root, probe) is Err,
        probe matches RootProbe::ZipFile(Err(e)) ==> spec_find_paths(root, probe) == Err::<
            PanoramaPathType,
            Seq<char>,
        >("failed to open file "@ + root + ": "@ + e@),
        probe matches RootProbe::ZipFile(Ok(bytes)) ==> (zip_archive_error(bytes@) matches Some(e)
            ==> spec_find_paths(root, probe) == Err::<PanoramaPathType, Seq<char>>(
            "failed to read zip file: "@ + e,
        )),
        probe matches RootProbe::ZipFile(Ok(bytes)) ==> forall|n: int|
            0 <= n < 6 && zip_archive_error(bytes@) is None && (forall|k: int|
                0 <= k < n ==> #[trigger] zip_entry_lookup_error(bytes@, spec_pack_entry_name(k)) is None)
                && #[trigger] zip_entry_lookup_error(bytes@, spec_pack_entry_name(n)) is Some
                ==> spec_find_paths(root, probe) == Err::<PanoramaPathType, Seq<char>>(
                "failed to find "@ + spec_pack_entry_name(n) + " in zip file: "@ + zip_entry_lookup_error(
                    bytes@,
                    spec_pack_entry_name(n),
                )->Some_0,
            ),
        probe matches RootProbe::Folder { pack_files_exist, plain_files_exist } ==> (!(forall|i: int|
            0 <= i < 6 ==> #[trigger] pack_files_exist@[i]) && !(forall|i: int|
            0 <= i < 6 ==> #[trigger] plain_files_exist@[i]) ==> spec_find_paths(root, probe) == Err::<
            PanoramaPathType,
            Seq<char>,
        >("no panorama images found in "@ + root + " or "@ + root + "/"@ + PATH_IN_PACK@)),
{
    if let RootProbe::ZipFile(Ok(bytes)) = probe {
        lemma_zip_pack_check(bytes@);
        assert forall|n: int|
            0 <= n < 6 && zip_archive_error(bytes@) is None && (forall|k: int|
                0 <= k < n ==> #[trigger] zip_entry_lookup_error(bytes@, spec_pack_entry_name(k)) is None)
                && #[trigger] zip_entry_lookup_error(bytes@, spec_pack_entry_name(n)) is Some
                implies spec_zip_entries_check(bytes@, 0) == Err::<(), Seq<char>>(
                "failed to find "@ + spec_pack_entry_name(n) + " in zip file: "@ + zip_entry_lookup_error(
                    bytes@,
                    spec_pack_entry_name(n),
                )->Some_0,
            ) by {
            lemma_entries_check_first_missing(bytes@, 0, n);
        }
    }
}

/// The entry check reports the first missing entry.
proof fn lemma_entries_check_first_missing(archive: Seq<u8>, first: int, n: int)
    requires
        0 <= first <= n < 6,
        forall|k: int| first <= k < n ==> #[trigger] zip_entry_lookup_error(archive, spec_pack_entry_name(k)) is None,
        zip_entry_lookup_error(archive, spec_pack_entry_name(n)) is Some,
    ensures
        spec_zip_entries_check(archive, first) == Err::<(), Seq<char>>(
            missing_entry_message(
                spec_pack_entry_name(n),
                zip_entry_lookup_error(archive, spec_pack_entry_name(n))->Some_0,
            ),
        ),
    decreases n - first,
{
    if first < n {
        assert(zip_entry_lookup_error(archive, spec_pack_entry_name(first)) is None);
        lemma_entries_check_first_missing(archive, first + 1, n);
    }
}


/// What loading an image gives, in terms of the decoder and the zip reader:
/// whenever the PNG decoder succeeds on the bytes fetched (or read from the zip
/// entry), the loaded image is exactly the decoded one, whatever its size; a
/// decoding message comes only from a failing decoder, an opening message only
/// from a failed fetch.
pub proof fn lemma_load_image_outcomes(location: Seq<char>, bytes: Seq<u8>, error: Seq<char>)
    ensures
        png_rgb8_decoding(bytes) matches Ok(t) ==> spec_load_image((false, location), Ok(bytes)) == Ok::<
            (u32, u32, Seq<u8>),
            Seq<char>,
        >(t),
        png_rgb8_decoding(bytes) matches Err(e) ==> spec_load_image((false, location), Ok(bytes)) == Err::<
            (u32, u32, Seq<u8>),
            Seq<char>,
        >("failed to decode image: "@ + e),
        spec_load_image((false, location), Err(error)) == Err::<(u32, u32, Seq<u8>), Seq<char>>(
            "failed to open image "@ + location + ": "@ + error,
        ),
        zip_entry_contents(bytes, location) matches Ok(png) ==> (png_rgb8_decoding(png) matches Ok(t)
            ==> spec_load_image((true, location), Ok(bytes)) == Ok::<(u32, u32, Seq<u8>), Seq<char>>(t)),
        zip_entry_contents(bytes, location) matches Ok(png) ==> (png_rgb8_decoding(png) matches Err(e)
            ==> spec_load_image((true, location), Ok(bytes)) == Err::<(u32, u32, Seq<u8>), Seq<char>>(
            "failed to decode image: "@ + e,
        )),
        zip_entry_contents(bytes, location) matches Err(e) ==> spec_load_image((true, location), Ok(bytes))
            == Err::<(u32, u32, Seq<u8>), Seq<char>>(e),
        spec_load_image((true, location), Err(error)) == Err::<(u32, u32, Seq<u8>), Seq<char>>(error),
{
}

} // verus!
