use offset_finder::exporter::{
    export_cpp_header, export_plain_text, export_rust_module, found_offsets,
};
use offset_finder::models::{GameVariant, OffsetResult};

fn entry(name: &str, offset: Option<&str>, category: &str) -> OffsetResult {
    OffsetResult {
        name: name.to_string(),
        offset: offset.map(|o| o.to_string()),
        category: category.to_string(),
    }
}

fn sample() -> Vec<OffsetResult> {
    vec![
        entry("StaticClass", Some("0x5C"), "Core"),
        entry("Match Status", None, "Core"),
        entry("Player-Name x", Some("2C"), "Player"),
        entry("isBot", Some("0x2D8"), "Bot Detection"),
        entry("Late", Some("0x1"), "Core"),
    ]
}

#[test]
fn plain_text_export() {
    assert_eq!(
        export_plain_text(&sample(), GameVariant::FreeFireMax),
        "====== FREE FIRE MAX OFFSETS ======\n\
         \n\
         --- Core ---\n\
         StaticClass = 0x5C\n\
         Match Status = NOT FOUND\n\
         \n\
         --- Player ---\n\
         Player-Name x = 2C\n\
         \n\
         --- Bot Detection ---\n\
         isBot = 0x2D8\n\
         \n\
         --- Core ---\n\
         Late = 0x1\n\
         \n\
         ====== STATISTICS ======\n\
         Found: 4/5\n"
    );
}

#[test]
fn plain_text_export_of_an_empty_report() {
    assert_eq!(
        export_plain_text(&[], GameVariant::FreeFire),
        "====== FREE FIRE OFFSETS ======\n\n\n====== STATISTICS ======\nFound: 0/0\n"
    );
}

#[test]
fn plain_text_export_counts_in_decimal() {
    let mut results = Vec::new();
    for i in 0..123 {
        results.push(entry(&format!("N{}", i), if i % 3 == 0 { Some("0x1") } else { None }, "Core"));
    }
    let text = export_plain_text(&results, GameVariant::FreeFireTela);
    assert!(text.starts_with("====== FREE FIRE TELA OFFSETS ======\n\n--- Core ---\nN0 = 0x1\n"));
    assert!(text.ends_with("\n====== STATISTICS ======\nFound: 41/123\n"));
}

#[test]
fn plain_text_export_without_a_category() {
    let results = vec![entry("A", Some("0x1"), ""), entry("B", None, "Core"), entry("C", None, "")];
    assert_eq!(
        export_plain_text(&results, GameVariant::FreeFire),
        "====== FREE FIRE OFFSETS ======\n\nA = 0x1\n--- Core ---\nB = NOT FOUND\n\n---  ---\nC = NOT FOUND\n\n====== STATISTICS ======\nFound: 1/3\n"
    );
}

#[test]
fn cpp_header_export() {
    assert_eq!(
        export_cpp_header(&sample(), GameVariant::FreeFireTela, "2024-01-02 03:04:05"),
        "// Auto-generated offsets\n\
         // Game: Free Fire TELA\n\
         // Generated: 2024-01-02 03:04:05\n\
         \n\
         #pragma once\n\
         #include <cstdint>\n\
         \n\
         namespace FreeFireTela {\n\
         \x20   // Core\n\
         \x20   constexpr uintptr_t STATICCLASS = 0x5C;\n\
         \n\
         \x20   // Player\n\
         \x20   constexpr uintptr_t PLAYER-NAME_X = 2C;\n\
         \n\
         \x20   // Bot Detection\n\
         \x20   constexpr uintptr_t ISBOT = 0x2D8;\n\
         \n\
         \x20   // Core\n\
         \x20   constexpr uintptr_t LATE = 0x1;\n\
         }\n"
    );
    assert_eq!(
        export_cpp_header(&[], GameVariant::FreeFire, ""),
        "// Auto-generated offsets\n// Game: Free Fire\n// Generated: \n\n#pragma once\n#include <cstdint>\n\nnamespace FreeFire {\n}\n"
    );
}

#[test]
fn rust_module_export() {
    assert_eq!(
        export_rust_module(&sample(), GameVariant::FreeFireMax, "now"),
        "// Auto-generated offsets\n\
         // Game: Free Fire MAX\n\
         // Generated: now\n\
         \n\
         #![allow(dead_code)]\n\
         \n\
         pub mod freefire_max {\n\
         \x20   // Core\n\
         \x20   pub const STATICCLASS: usize = 0x5C;\n\
         \n\
         \x20   // Player\n\
         \x20   pub const PLAYER_NAME_X: usize = 0x2C;\n\
         \n\
         \x20   // Bot Detection\n\
         \x20   pub const ISBOT: usize = 0x2D8;\n\
         \n\
         \x20   // Core\n\
         \x20   pub const LATE: usize = 0x1;\n\
         }\n"
    );
    assert_eq!(
        export_rust_module(&[], GameVariant::FreeFire, "t"),
        "// Auto-generated offsets\n// Game: Free Fire\n// Generated: t\n\n#![allow(dead_code)]\n\npub mod freefire {\n}\n"
    );
}

#[test]
fn export_names_in_capital_letters() {
    let results = vec![entry("straße é-x y", Some("0X10"), "Core")];
    let header = export_cpp_header(&results, GameVariant::FreeFire, "t");
    assert!(header.contains("    constexpr uintptr_t STRASSE_É-X_Y = 0X10;\n"));
    let module = export_rust_module(&results, GameVariant::FreeFire, "t");
    assert!(module.contains("    pub const STRASSE_É_X_Y: usize = 0x0X10;\n"));
}

#[test]
fn found_offsets_are_listed_in_report_order() {
    let found = found_offsets(&sample());
    let want: Vec<(String, String, String)> = [
        ("Core", "StaticClass", "0x5C"),
        ("Player", "Player-Name x", "2C"),
        ("Bot Detection", "isBot", "0x2D8"),
        ("Core", "Late", "0x1"),
    ]
    .iter()
    .map(|(c, n, o)| (c.to_string(), n.to_string(), o.to_string()))
    .collect();
    assert_eq!(found, want);
    assert!(found_offsets(&[]).is_empty());
    assert!(found_offsets(&[entry("A", None, "Core")]).is_empty());
}
