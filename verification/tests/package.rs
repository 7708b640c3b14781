use std::io::{Cursor, Write};

use excelize::archive::{place_entry, Entry};
use excelize::xml_content_types::{XMLOverride, XMLTypes};
use excelize::xml_rels::{XMLRelationship, XMLRelationships};
use excelize::xml_sst::{CTRst, RElt, CTSST};
use excelize::xml_workbook::{XMLFileVersion, XMLSheet, XMLSheets, XMLWorkbook};
use excelize::xml_worksheet::{CTCell, CTRow, XMLWorksheet};
use excelize::{Cell, ContainerFault, ExcelizeError, ParsedPart, PartKind, Spreadsheet};
use quick_xml::events::{BytesStart, Event};
use quick_xml::Reader;
use zip::write::FileOptions;
use zip::{CompressionMethod, ZipWriter};

const CONTENT_TYPES: &str = r#"<?xml version="1.0" encoding="UTF-8"?>
<Types xmlns="http://schemas.openxmlformats.org/package/2006/content-types">
  <Default Extension="xml" ContentType="application/xml"/>
  <Override PartName="/xl/workbook.xml" ContentType="application/vnd.sheet.main+xml"/>
</Types>"#;

const WORKBOOK: &str = r#"<?xml version="1.0" encoding="UTF-8"?>
<workbook xmlns:r="http://schemas.openxmlformats.org/officeDocument/2006/relationships">
  <fileVersion appName="xl" lastEdited="4" lowestEdited="4" rupBuild="4505"/>
  <sheets>
    <sheet name="Sheet1" sheetId="1" r:id="rId1"/>
    <sheet name="Data &amp; more" sheetId="2" r:id="rId2"/>
  </sheets>
</workbook>"#;

const WORKBOOK_RELS: &str = r#"<?xml version="1.0" encoding="UTF-8"?>
<Relationships>
  <Relationship Id="rId3" Type="sharedStrings" Target="sharedStrings.xml"/>
  <Relationship Id="rId2" Type="worksheet" Target="worksheets/sheet2.xml"/>
  <Relationship Id="rId1" Type="worksheet" Target="worksheets/sheet1.xml"/>
</Relationships>"#;

const SHEET1: &str = r#"<?xml version="1.0" encoding="UTF-8"?>
<worksheet>
  <sheetData>
    <row r="1"><c r="A1"><v>42</v></c><c r="B1" t="str"><v>a&lt;b</v></c></row>
    <row r="2"><c r="A2" t="s"><v>0</v></c><c r="B2" t="s"><v>1</v></c><c r="C2" t="s"><v>n/a</v></c></row>
  </sheetData>
</worksheet>"#;

const SHEET2: &str = r#"<?xml version="1.0" encoding="UTF-8"?>
<worksheet><sheetData><row r="3"><c r="AA3" t="s"><v>0</v></c></row></sheetData></worksheet>"#;

const SHARED_STRINGS: &str = r#"<?xml version="1.0" encoding="UTF-8"?>
<sst count="2" uniqueCount="2">
  <si><t>Hello</t></si>
  <si><r><t>Hel</t></r><r><t>lo</t></r></si>
</sst>"#;

fn attribute(element: &BytesStart, key: &str) -> Option<String> {
    for attribute in element.attributes() {
        let attribute = attribute.ok()?;
        if attribute.key == key.as_bytes() {
            let value = attribute.unescaped_value().ok()?;
            return String::from_utf8(value.into_owned()).ok();
        }
    }
    None
}

fn needed(element: &BytesStart, key: &str) -> Result<String, String> {
    attribute(element, key).ok_or(format!("missing attribute {}", key))
}

fn number(element: &BytesStart, key: &str) -> Result<i32, String> {
    needed(element, key)?.parse::<i32>().map_err(|e| e.to_string())
}

/// A deserializer over the events of `quick_xml`, for the elements and
/// attributes that these tests store.
fn parse(kind: PartKind, text: &str) -> Result<ParsedPart, String> {
    let mut reader = Reader::from_str(text);
    let mut buf = Vec::new();
    let mut types = Vec::new();
    let mut version = None;
    let mut sheets = Vec::new();
    let mut relationships = Vec::new();
    let mut rows: Option<Vec<CTRow>> = None;
    let mut items: Vec<CTRst> = Vec::new();
    let mut path: Vec<String> = Vec::new();
    let mut root = None;
    loop {
        let event = reader.read_event(&mut buf).map_err(|e| e.to_string())?;
        let (element, opens) = match &event {
            Event::Start(element) => (Some(element), true),
            Event::Empty(element) => (Some(element), false),
            _ => (None, false),
        };
        if let Some(element) = element {
            let name = String::from_utf8(element.name().to_vec()).map_err(|e| e.to_string())?;
            if root.is_none() {
                root = Some(name.clone());
            }
            match name.as_str() {
                "Default" => types.push(XMLOverride::Default {
                    extension: needed(element, "Extension")?,
                    content_type: needed(element, "ContentType")?,
                }),
                "Override" => types.push(XMLOverride::Override {
                    part_name: needed(element, "PartName")?,
                    content_type: needed(element, "ContentType")?,
                }),
                "fileVersion" => {
                    version = Some(XMLFileVersion {
                        app_name: needed(element, "appName")?,
                        last_edited: number(element, "lastEdited")?,
                        lowest_edited: number(element, "lowestEdited")?,
                        rup_build: number(element, "rupBuild")?,
                    })
                }
                "sheet" => sheets.push(XMLSheet {
                    name: needed(element, "name")?,
                    sheet_id: number(element, "sheetId")?,
                    id: needed(element, "r:id")?,
                }),
                "Relationship" => relationships.push(XMLRelationship {
                    id: needed(element, "Id")?,
                    rel_type: needed(element, "Type")?,
                    target: needed(element, "Target")?,
                }),
                "row" => {
                    let r = match attribute(element, "r") {
                        Some(r) => Some(r.parse::<u32>().map_err(|e| e.to_string())?),
                        None => None,
                    };
                    rows.get_or_insert_with(Vec::new).push(CTRow::with_cells(r, Vec::new()));
                }
                "c" => {
                    let cell = CTCell::new(needed(element, "r")?, attribute(element, "t"), None);
                    rows.as_mut().and_then(|rows| rows.last_mut()).ok_or("cell outside a row")?.c.push(cell);
                }
                "si" => items.push(CTRst { t: None, r: None, r_ph: None, phonetic_pr: None }),
                "r" => {
                    let item = items.last_mut().ok_or("run outside an item")?;
                    item.r.get_or_insert_with(Vec::new).push(RElt::plain(String::new()));
                }
                _ => {}
            }
            if opens {
                path.push(name);
            }
        }
        match event {
            Event::Text(text) => {
                let text = text.unescape_and_decode(&reader).map_err(|e| e.to_string())?;
                let at: Vec<&str> = path.iter().map(|s| s.as_str()).collect();
                if at.ends_with(&["c", "v"]) {
                    let row = rows.as_mut().and_then(|rows| rows.last_mut());
                    let cell = row.and_then(|row| row.c.last_mut()).ok_or("value outside a cell")?;
                    cell.v = Some(text);
                } else if at.ends_with(&["si", "t"]) {
                    let item = items.last_mut().ok_or("text outside an item")?;
                    item.t.get_or_insert_with(Vec::new).push(text);
                } else if at.ends_with(&["r", "t"]) {
                    let runs = items.last_mut().and_then(|item| item.r.as_mut());
                    runs.and_then(|runs| runs.last_mut()).ok_or("text outside a run")?.t = text;
                }
            }
            Event::End(_) => {
                path.pop();
            }
            Event::Eof => break,
            _ => {}
        }
        buf.clear();
    }
    let expected = match kind {
        PartKind::ContentTypes => "Types",
        PartKind::Workbook => "workbook",
        PartKind::Relationships => "Relationships",
        PartKind::Worksheet => "worksheet",
        PartKind::SharedStrings => "sst",
    };
    if root.as_deref() != Some(expected) {
        return Err(format!("expected element {}", expected));
    }
    Ok(match kind {
        PartKind::ContentTypes => ParsedPart::ContentTypes(XMLTypes { fields: types }),
        PartKind::Workbook => ParsedPart::Workbook(XMLWorkbook {
            file_version: version.ok_or("missing element fileVersion")?,
            sheets: XMLSheets { sheet: sheets },
        }),
        PartKind::Relationships => {
            ParsedPart::Relationships(XMLRelationships { relationship: relationships })
        }
        PartKind::Worksheet => ParsedPart::Worksheet(XMLWorksheet::with_rows(rows)),
        PartKind::SharedStrings => ParsedPart::SharedStrings(CTSST::with_items(items)),
    })
}

fn zipped(entries: &[(&str, &[u8])], method: CompressionMethod) -> Vec<u8> {
    let mut writer = ZipWriter::new(Cursor::new(Vec::new()));
    let options = FileOptions::default().compression_method(method);
    for (name, bytes) in entries {
        if name.ends_with('/') {
            writer.add_directory(*name, options).unwrap();
        } else {
            writer.start_file(*name, options).unwrap();
            writer.write_all(bytes).unwrap();
        }
    }
    writer.finish().unwrap().into_inner()
}

fn book(method: CompressionMethod) -> Vec<u8> {
    zipped(
        &[
            ("[Content_Types].xml", CONTENT_TYPES.as_bytes()),
            ("xl/", b""),
            ("xl/workbook.xml", WORKBOOK.as_bytes()),
            ("xl/_rels/workbook.xml.rels", WORKBOOK_RELS.as_bytes()),
            ("xl/worksheets/", b""),
            ("xl/worksheets/sheet1.xml", SHEET1.as_bytes()),
            ("xl/worksheets/sheet2.xml", SHEET2.as_bytes()),
            ("xl/sharedStrings.xml", SHARED_STRINGS.as_bytes()),
        ],
        method,
    )
}

#[test]
fn test_open_file() {
    let wb = Spreadsheet::open(book(CompressionMethod::Deflated), &parse);
    match wb {
        Ok(ws) => match ws.get_cell_value("Sheet1", 2, 1) {
            Ok(c) => {
                let cell = String::from(c);
                println!("the value of cell A1 is: {}", cell);
                assert_eq!(cell, "Hello");
            }
            Err(e) => {
                println!("{:?}", e);
                panic!("{:?}", e);
            }
        },
        Err(e) => {
            println!("{:?}", e);
            panic!("{:?}", e);
        }
    }
}

#[test]
fn an_opened_package_answers_from_its_caches() {
    let doc = Spreadsheet::open(book(CompressionMethod::Stored), &parse).unwrap();
    assert_eq!(doc.get_cell_value("Sheet1", 1, 1), Ok(String::from("42")));
    assert_eq!(doc.get_cell_value("Sheet1", 1, 2), Ok(String::from("a<b")));
    assert_eq!(doc.get_cell_value("Sheet1", 2, 1), Ok(String::from("Hello")));
    assert_eq!(doc.get_cell_value("Sheet1", 2, 2), Ok(String::from("Hello")));
    assert_eq!(doc.get_cell_value("Sheet1", 2, 3), Ok(String::from("n/a")));
    assert_eq!(doc.get_cell_value("Sheet1", 3, 1), Ok(String::new()));
    assert_eq!(doc.get_cell_value("Data & more", 3, 27), Ok(String::from("Hello")));
    assert_eq!(
        doc.get_cell_value("Sheet3", 1, 1),
        Err(ExcelizeError::NotFound(String::from("Sheet3")))
    );
    assert!(doc.content_type.is_some());
    assert!(doc.workbook.is_some());
    assert!(doc.sst.is_some());
    assert!(doc.relationships("xl/_rels/workbook.xml.rels").is_some());
    assert!(doc.worksheet("Sheet1").is_some());
    assert!(doc.worksheet("Data & more").is_some());
}

#[test]
fn unpacking_stores_every_file_under_its_path() {
    for method in [CompressionMethod::Stored, CompressionMethod::Deflated] {
        let doc = Spreadsheet::unpack(book(method)).unwrap();
        assert_eq!(doc.part("[Content_Types].xml"), Some(&CONTENT_TYPES.as_bytes().to_vec()));
        assert_eq!(doc.part("xl/workbook.xml"), Some(&WORKBOOK.as_bytes().to_vec()));
        assert_eq!(doc.part("xl/worksheets/sheet2.xml"), Some(&SHEET2.as_bytes().to_vec()));
        assert_eq!(doc.part("xl/sharedStrings.xml"), Some(&SHARED_STRINGS.as_bytes().to_vec()));
        assert_eq!(doc.part("xl/"), None);
        assert_eq!(doc.part("xl/worksheets/"), None);
        assert_eq!(doc.part("xl"), None);
        assert_eq!(doc.part("workbook.xml"), None);
        assert!(doc.content_type.is_none() && doc.workbook.is_none() && doc.sst.is_none());
        assert!(doc.worksheet("Sheet1").is_none());
    }
}

#[test]
fn an_empty_archive_is_an_empty_part_store() {
    let doc = Spreadsheet::unpack(zipped(&[], CompressionMethod::Stored)).unwrap();
    assert_eq!(doc.part("[Content_Types].xml"), None);
    let only_directories = zipped(&[("a/", b""), ("a/b/", b"")], CompressionMethod::Stored);
    let doc = Spreadsheet::unpack(only_directories).unwrap();
    assert_eq!(doc.part("a/"), None);
}

#[test]
fn an_entry_stored_twice_counts_as_stored_last() {
    let bytes = zipped(&[("a.xml", b"one"), ("b.xml", b"two"), ("a.xml", b"three")], CompressionMethod::Stored);
    let doc = Spreadsheet::unpack(bytes).unwrap();
    assert_eq!(doc.part("a.xml"), Some(&b"three".to_vec()));
    assert_eq!(doc.part("b.xml"), Some(&b"two".to_vec()));
}

#[test]
fn bytes_that_are_no_archive_are_a_container_error() {
    for bytes in [Vec::new(), b"PK".to_vec(), b"<xml/>".to_vec(), vec![0u8; 4096]] {
        assert_eq!(
            Spreadsheet::unpack(bytes.clone()).err(),
            Some(ExcelizeError::Container(ContainerFault::NotAnArchive))
        );
        assert_eq!(
            Spreadsheet::open(bytes, &parse).err(),
            Some(ExcelizeError::Container(ContainerFault::NotAnArchive))
        );
    }
}

#[test]
fn an_entry_that_leaves_the_root_is_a_container_error() {
    for name in ["../evil.xml", "/etc/evil.xml", "a/../../evil.xml", "xl/../../evil/"] {
        let bytes = zipped(&[("ok.xml", b"fine"), (name, b"bad")], CompressionMethod::Stored);
        assert_eq!(
            Spreadsheet::unpack(bytes).err(),
            Some(ExcelizeError::Container(ContainerFault::UnsafeEntryName(String::from(name))))
        );
    }
    let inside = zipped(&[("a/../b.xml", b"fine")], CompressionMethod::Stored);
    let doc = Spreadsheet::unpack(inside).unwrap();
    assert_eq!(doc.part("a/../b.xml"), Some(&b"fine".to_vec()));
    assert_eq!(doc.part("b.xml"), None);
}

#[test]
fn a_damaged_entry_is_a_container_error() {
    let content = b"the quick brown fox jumps over the lazy dog";
    let mut bytes = zipped(&[("a.xml", b"fine"), ("b.xml", content)], CompressionMethod::Stored);
    let at = bytes.windows(content.len()).position(|w| w == content).unwrap();
    bytes[at] ^= 0xff;
    assert_eq!(
        Spreadsheet::unpack(bytes).err(),
        Some(ExcelizeError::Container(ContainerFault::EntryUnreadable(1)))
    );
}

#[test]
fn entries_are_placed_by_their_names() {
    let read = |name: &str, enclosed: Option<&str>, data: Option<&[u8]>| {
        Some(Entry {
            name: String::from(name),
            enclosed: enclosed.map(String::from),
            data: data.map(|bytes| bytes.to_vec()),
        })
    };
    assert_eq!(
        place_entry(0, read("a.xml", Some("a.xml"), Some(b"one"))),
        Ok(Some((String::from("a.xml"), b"one".to_vec())))
    );
    assert_eq!(place_entry(1, read("xl/", Some("xl/"), Some(b""))), Ok(None));
    assert_eq!(place_entry(1, read("xl/", Some("xl/"), None)), Ok(None));
    assert_eq!(place_entry(2, read("", Some(""), Some(b""))), Ok(Some((String::new(), vec![]))));
    assert_eq!(place_entry(3, None), Err(ContainerFault::EntryUnreadable(3)));
    assert_eq!(
        place_entry(4, read("a.xml", Some("a.xml"), None)),
        Err(ContainerFault::EntryUnreadable(4))
    );
    assert_eq!(
        place_entry(5, read("../a.xml", None, Some(b"one"))),
        Err(ContainerFault::UnsafeEntryName(String::from("../a.xml")))
    );
    assert_eq!(
        place_entry(6, read("../a/", None, Some(b""))),
        Err(ContainerFault::UnsafeEntryName(String::from("../a/")))
    );
}

fn without(entries: &[&str]) -> Vec<u8> {
    let all: [(&str, &[u8]); 6] = [
        ("[Content_Types].xml", CONTENT_TYPES.as_bytes()),
        ("xl/workbook.xml", WORKBOOK.as_bytes()),
        ("xl/_rels/workbook.xml.rels", WORKBOOK_RELS.as_bytes()),
        ("xl/worksheets/sheet1.xml", SHEET1.as_bytes()),
        ("xl/worksheets/sheet2.xml", SHEET2.as_bytes()),
        ("xl/sharedStrings.xml", SHARED_STRINGS.as_bytes()),
    ];
    let kept: Vec<(&str, &[u8])> =
        all.iter().filter(|(name, _)| !entries.contains(name)).cloned().collect();
    zipped(&kept, CompressionMethod::Deflated)
}

#[test]
fn opening_fails_on_the_first_part_that_is_missing() {
    let missing = |path: &str| Some(ExcelizeError::PartMissing(String::from(path)));
    assert_eq!(
        Spreadsheet::open(without(&["[Content_Types].xml", "xl/workbook.xml"]), &parse).err(),
        missing("[Content_Types].xml")
    );
    assert_eq!(
        Spreadsheet::open(without(&["xl/workbook.xml", "xl/_rels/workbook.xml.rels"]), &parse)
            .err(),
        missing("xl/workbook.xml")
    );
    assert_eq!(
        Spreadsheet::open(without(&["xl/_rels/workbook.xml.rels"]), &parse).err(),
        missing("xl/_rels/workbook.xml.rels")
    );
    assert_eq!(
        Spreadsheet::open(without(&["xl/worksheets/sheet2.xml"]), &parse).err(),
        missing("xl/worksheets/sheet2.xml")
    );
}

#[test]
fn opening_passes_over_absent_shared_strings() {
    let doc = Spreadsheet::open(without(&["xl/sharedStrings.xml"]), &parse).unwrap();
    assert!(doc.sst.is_none());
    assert_eq!(doc.get_cell_value("Sheet1", 1, 1), Ok(String::from("42")));
    assert_eq!(doc.get_cell_value("Sheet1", 2, 3), Ok(String::from("n/a")));
    assert_eq!(
        doc.get_cell_value("Sheet1", 2, 1),
        Err(ExcelizeError::InconsistentPackage(String::from("0")))
    );
}

#[test]
fn opening_fails_on_a_malformed_part() {
    let bytes = zipped(
        &[
            ("[Content_Types].xml", CONTENT_TYPES.as_bytes()),
            ("xl/workbook.xml", b"<workbook><sheets/></workbook>"),
        ],
        CompressionMethod::Deflated,
    );
    assert_eq!(
        Spreadsheet::open(bytes, &parse).err(),
        Some(ExcelizeError::Parse {
            part: String::from("xl/workbook.xml"),
            detail: String::from("missing element fileVersion"),
        })
    );
    let bytes = zipped(&[("[Content_Types].xml", WORKBOOK.as_bytes())], CompressionMethod::Stored);
    assert_eq!(
        Spreadsheet::open(bytes, &parse).err(),
        Some(ExcelizeError::Parse {
            part: String::from("[Content_Types].xml"),
            detail: String::from("expected element Types"),
        })
    );
}
