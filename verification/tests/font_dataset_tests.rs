//! A set of made-up font files in a temporary directory, and what the
//! library says of them.

use std::io::Write;
use std::path::{Path, PathBuf};

use fontlift::validation::{extract_basic_info_from_path, is_valid_font_extension};
use tempfile::TempDir;

#[derive(Debug, Clone, PartialEq)]
enum TestFontFormat {
    TrueType,
    OpenType,
    Woff,
    Woff2,
    Ttc,
}

impl TestFontFormat {
    fn extension(&self) -> &'static str {
        match self {
            TestFontFormat::TrueType => "ttf",
            TestFontFormat::OpenType => "otf",
            TestFontFormat::Woff => "woff",
            TestFontFormat::Woff2 => "woff2",
            TestFontFormat::Ttc => "ttc",
        }
    }
}

#[derive(Debug, Clone)]
struct TestFont {
    name: String,
    family: String,
    style: String,
    format: TestFontFormat,
    path: PathBuf,
}

struct TestFontDataset {
    temp_dir: TempDir,
    fonts: Vec<TestFont>,
}

fn put_file(path: &Path, content: &[u8]) {
    let mut file = tempfile::NamedTempFile::new_in(path.parent().unwrap()).unwrap();
    file.write_all(content).unwrap();
    file.persist(path).unwrap();
}

impl TestFontDataset {
    fn new() -> Self {
        TestFontDataset {
            temp_dir: TempDir::new().unwrap(),
            fonts: Vec::new(),
        }
    }

    fn create_comprehensive_dataset() -> Self {
        let mut dataset = Self::new();
        dataset.create_font("TestSans-Regular", "TestSans", "Regular", TestFontFormat::TrueType);
        dataset.create_font("TestSans-Bold", "TestSans", "Bold", TestFontFormat::TrueType);
        dataset.create_font("TestSans-Italic", "TestSans", "Italic", TestFontFormat::OpenType);
        dataset.create_font("TestSerif-Regular", "TestSerif", "Regular", TestFontFormat::OpenType);
        dataset.create_font("TestMono-Regular", "TestMono", "Regular", TestFontFormat::Woff);
        dataset.create_font("TestDisplay-Bold", "TestDisplay", "Bold", TestFontFormat::Woff2);
        dataset.create_font("TestCollection", "TestCollection", "Collection", TestFontFormat::Ttc);
        dataset
    }

    fn create_font(&mut self, name: &str, family: &str, style: &str, format: TestFontFormat) {
        let path = self
            .temp_dir
            .path()
            .join(format!("{}.{}", name, format.extension()));
        put_file(&path, &[0x00, 0x01, 0x00, 0x00, 0x00, 0x0C]);
        self.fonts.push(TestFont {
            name: name.to_string(),
            family: family.to_string(),
            style: style.to_string(),
            format,
            path,
        });
    }

    fn fonts(&self) -> &[TestFont] {
        &self.fonts
    }

    fn fonts_by_format(&self, format: &TestFontFormat) -> Vec<&TestFont> {
        self.fonts.iter().filter(|f| &f.format == format).collect()
    }

    fn fonts_by_family(&self, family: &str) -> Vec<&TestFont> {
        self.fonts.iter().filter(|f| f.family == family).collect()
    }

    fn font_by_name(&self, name: &str) -> Option<&TestFont> {
        self.fonts.iter().find(|f| f.name == name)
    }
}

#[test]
fn test_create_comprehensive_dataset() {
    let dataset = TestFontDataset::create_comprehensive_dataset();

    assert!(!dataset.fonts().is_empty());
    assert!(dataset.fonts().len() >= 7);

    let ttf_fonts = dataset.fonts_by_format(&TestFontFormat::TrueType);
    let otf_fonts = dataset.fonts_by_format(&TestFontFormat::OpenType);
    let woff_fonts = dataset.fonts_by_format(&TestFontFormat::Woff);

    assert!(!ttf_fonts.is_empty());
    assert!(!otf_fonts.is_empty());
    assert!(!woff_fonts.is_empty());
}

#[test]
fn test_font_filtering() {
    let dataset = TestFontDataset::create_comprehensive_dataset();

    let test_sans_fonts = dataset.fonts_by_family("TestSans");
    assert!(!test_sans_fonts.is_empty());

    let test_mono_fonts = dataset.fonts_by_family("TestMono");
    assert!(!test_mono_fonts.is_empty());

    let specific_font = dataset.font_by_name("TestSans-Bold");
    assert!(specific_font.is_some());
    assert_eq!(specific_font.unwrap().style, "Bold");
}

#[test]
fn the_dataset_is_told_apart_by_file_name() {
    let dataset = TestFontDataset::create_comprehensive_dataset();
    for font in dataset.fonts() {
        let path = font.path.to_str().unwrap();
        assert!(font.path.exists());
        assert!(is_valid_font_extension(path));
        let info = extract_basic_info_from_path(path);
        assert_eq!(info.postscript_name, font.name);
        assert_eq!(info.source.format, Some(font.format.extension().to_uppercase()));
        if font.name.contains('-') {
            assert_eq!(info.family_name, font.family);
            assert_eq!(info.style, font.style);
        } else {
            assert_eq!(info.family_name, font.name);
            assert_eq!(info.style, "Regular");
        }
    }
}
