use panorama::faces::{map_texture_number_to_file_number, FACE_COUNT};
use panorama::pack::{
    has_zip_extension, load_image, pack_entry_name, panorama_file_name, ImageSource, PanoramaPath,
    PanoramaPathType, RootProbe, PATH_IN_PACK,
};

fn png_bytes(width: u32, height: u32, data: Vec<u8>) -> Vec<u8> {
    let img = image::RgbImage::from_raw(width, height, data).unwrap();
    let mut out = std::io::Cursor::new(Vec::new());
    img.write_to(&mut out, image::ImageFormat::Png).unwrap();
    out.into_inner()
}

fn zip_bytes(entries: &[(&str, &[u8])]) -> Vec<u8> {
    let mut writer = zip::ZipWriter::new(std::io::Cursor::new(Vec::new()));
    let options = zip::write::SimpleFileOptions::default().compression_method(zip::CompressionMethod::Stored);
    for (name, contents) in entries {
        writer.start_file(*name, options).unwrap();
        std::io::Write::write_all(&mut writer, contents).unwrap();
    }
    writer.finish().unwrap().into_inner()
}

#[test]
fn texture_numbers_map_to_panorama_files() {
    let expected = [3, 1, 4, 5, 0, 2];
    for t in 0..FACE_COUNT {
        assert_eq!(map_texture_number_to_file_number(t), Some(expected[t as usize]));
    }
    assert_eq!(map_texture_number_to_file_number(6), None);
    assert_eq!(map_texture_number_to_file_number(255), None);
}

#[test]
fn face_mapping_is_a_permutation() {
    let mut seen = [false; 6];
    for t in 0..FACE_COUNT {
        let n = map_texture_number_to_file_number(t).unwrap() as usize;
        assert!(!seen[n]);
        seen[n] = true;
    }
    assert!(seen.iter().all(|s| *s));
}

#[test]
fn image_file_names() {
    assert_eq!(panorama_file_name(0), "panorama_0.png");
    assert_eq!(panorama_file_name(5), "panorama_5.png");
    assert_eq!(
        pack_entry_name(3),
        "assets/minecraft/textures/gui/title/background/panorama_3.png"
    );
    assert_eq!(PATH_IN_PACK, "assets/minecraft/textures/gui/title/background");
}

#[test]
fn zip_extension_follows_path_extension() {
    assert!(has_zip_extension(b"pack.zip"));
    assert!(has_zip_extension(b"x.zip"));
    assert!(has_zip_extension(b"a.b.zip"));
    assert!(!has_zip_extension(b".zip"));
    assert!(!has_zip_extension(b"zip"));
    assert!(!has_zip_extension(b"pack.ZIP"));
    assert!(!has_zip_extension(b"pack.zip.bak"));
    assert!(!has_zip_extension(b""));
    for name in ["pack.zip", ".zip", "a.zip", "archive", "x.tar.zip", "..zip"] {
        let std_says = std::path::Path::new(name).extension().is_some_and(|e| e == "zip");
        assert_eq!(has_zip_extension(name.as_bytes()), std_says, "{name}");
    }
}

#[test]
fn pack_folder_is_preferred_over_base_folder() {
    let probe = RootProbe::Folder { pack_files_exist: [true; 6], plain_files_exist: [true; 6] };
    let path = PanoramaPath::find_paths("packs/monument", probe).unwrap();
    assert_eq!(path.path_type(), PanoramaPathType::PackFolder);
    assert_eq!(path.root(), "packs/monument");
}

#[test]
fn base_folder_needs_all_six_images() {
    let probe = RootProbe::Folder {
        pack_files_exist: [true, true, true, true, true, false],
        plain_files_exist: [true; 6],
    };
    let path = PanoramaPath::find_paths(".", probe).unwrap();
    assert_eq!(path.path_type(), PanoramaPathType::BaseFolder);

    let probe = RootProbe::Folder {
        pack_files_exist: [false; 6],
        plain_files_exist: [true, true, false, true, true, true],
    };
    let err = PanoramaPath::find_paths("shots", probe).err().unwrap();
    assert_eq!(
        err,
        "no panorama images found in shots or shots/assets/minecraft/textures/gui/title/background"
    );
}

#[test]
fn unreadable_zip_file_is_reported() {
    let probe = RootProbe::ZipFile(Err("Os { code: 2 }".to_string()));
    let err = PanoramaPath::find_paths("p.zip", probe).err().unwrap();
    assert_eq!(err, "failed to open file p.zip: Os { code: 2 }");
}

#[test]
fn corrupt_zip_is_reported() {
    let probe = RootProbe::ZipFile(Ok(b"not a zip archive".to_vec()));
    let err = PanoramaPath::find_paths("p.zip", probe).err().unwrap();
    assert!(err.starts_with("failed to read zip file: "), "{err}");
    assert!(err.len() > "failed to read zip file: ".len());
}

#[test]
fn zip_pack_with_all_images_is_accepted() {
    let names: Vec<String> = (0..6).map(pack_entry_name).collect();
    let entries: Vec<(&str, &[u8])> = names.iter().map(|n| (n.as_str(), &b"x"[..])).collect();
    let probe = RootProbe::ZipFile(Ok(zip_bytes(&entries)));
    let path = PanoramaPath::find_paths("pack.zip", probe).unwrap();
    assert_eq!(path.path_type(), PanoramaPathType::PackZip);
}

#[test]
fn zip_pack_missing_an_image_names_it() {
    let names: Vec<String> = (0..6).filter(|n| *n != 4).map(pack_entry_name).collect();
    let entries: Vec<(&str, &[u8])> = names.iter().map(|n| (n.as_str(), &b"x"[..])).collect();
    let probe = RootProbe::ZipFile(Ok(zip_bytes(&entries)));
    let err = PanoramaPath::find_paths("pack.zip", probe).err().unwrap();
    assert_eq!(
        err,
        "failed to find assets/minecraft/textures/gui/title/background/panorama_4.png in zip file: FileNotFound"
    );
}

#[test]
fn iteration_walks_faces_in_texture_order() {
    let probe = RootProbe::Folder { pack_files_exist: [false; 6], plain_files_exist: [true; 6] };
    let path = PanoramaPath::find_paths("root", probe).unwrap();
    let mut it = path.iter();
    let mut numbers = Vec::new();
    while let Some(n) = it.next_image_number() {
        numbers.push(n);
    }
    assert_eq!(numbers, vec![3, 1, 4, 5, 0, 2]);
    assert_eq!(it.next_image_number(), None);
    assert_eq!(it.next_image_number(), None);
}

#[test]
fn image_sources_follow_the_storage() {
    let base = PanoramaPath::find_paths(
        "r",
        RootProbe::Folder { pack_files_exist: [false; 6], plain_files_exist: [true; 6] },
    )
    .unwrap();
    assert_eq!(base.iter().image_source(2), ImageSource::File("panorama_2.png".to_string()));
    let pack = PanoramaPath::find_paths(
        "r",
        RootProbe::Folder { pack_files_exist: [true; 6], plain_files_exist: [false; 6] },
    )
    .unwrap();
    assert_eq!(
        pack.iter().image_source(2),
        ImageSource::File("assets/minecraft/textures/gui/title/background/panorama_2.png".to_string())
    );
}

#[test]
fn loading_a_missing_file_reports_its_path() {
    let source = ImageSource::File("panorama_1.png".to_string());
    let err = load_image(&source, Err("No such file".to_string())).err().unwrap();
    assert_eq!(err, "failed to open image panorama_1.png: No such file");
}

#[test]
fn loading_garbage_reports_a_decode_failure() {
    let source = ImageSource::File("panorama_1.png".to_string());
    let err = load_image(&source, Ok(vec![1, 2, 3])).err().unwrap();
    assert!(err.starts_with("failed to decode image: "), "{err}");
}

#[test]
fn loading_a_png_file_decodes_it() {
    let data: Vec<u8> = (0..2 * 3 * 3).map(|i| i as u8 * 10).collect();
    let source = ImageSource::File("panorama_0.png".to_string());
    let img = load_image(&source, Ok(png_bytes(2, 3, data.clone()))).unwrap();
    assert_eq!((img.width, img.height), (2, 3));
    assert_eq!(img.data, data);
}

#[test]
fn loading_from_a_zip_pack_reads_the_entry() {
    let data: Vec<u8> = vec![255, 0, 0, 0, 255, 0];
    let png = png_bytes(2, 1, data.clone());
    let name = pack_entry_name(5);
    let archive = zip_bytes(&[(name.as_str(), png.as_slice())]);
    let source = ImageSource::ZipEntry(name.clone());
    let img = load_image(&source, Ok(archive.clone())).unwrap();
    assert_eq!((img.width, img.height, img.data), (2, 1, data));

    let missing = ImageSource::ZipEntry(pack_entry_name(1));
    let err = load_image(&missing, Ok(archive)).err().unwrap();
    assert_eq!(err, "specified file not found in archive");

    let err = load_image(&source, Err("permission denied".to_string())).err().unwrap();
    assert_eq!(err, "permission denied");
}

#[test]
fn every_face_of_an_accepted_zip_pack_loads() {
    let names: Vec<String> = (0..6).map(pack_entry_name).collect();
    let pngs: Vec<Vec<u8>> = (0..6u8).map(|i| png_bytes(1, 1, vec![i, i, i])).collect();
    let entries: Vec<(&str, &[u8])> =
        names.iter().zip(pngs.iter()).map(|(n, p)| (n.as_str(), p.as_slice())).collect();
    let archive = zip_bytes(&entries);
    let path = PanoramaPath::find_paths("pack.zip", RootProbe::ZipFile(Ok(archive.clone()))).unwrap();
    let mut it = path.iter();
    let mut loaded = Vec::new();
    while let Some(n) = it.next_image_number() {
        let source = it.image_source(n);
        assert!(matches!(source, ImageSource::ZipEntry(_)));
        let img = load_image(&source, Ok(archive.clone())).unwrap();
        loaded.push(img.data[0]);
    }
    assert_eq!(loaded, vec![3, 1, 4, 5, 0, 2]);
}
