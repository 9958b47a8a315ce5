use offset_finder::config::{
    detect_game_variant, get_game_config, get_targets, is_valid_catalog, load_game_config,
    names_are_valid, signature_name_list,
};
use offset_finder::models::{ExportFormat, GameVariant, OffsetCategory, Target};
use offset_finder::scanner::{count_listed, scan_binary, scan_text, search_offsets};

fn shape(catalog: &[(OffsetCategory, Vec<Target>)]) -> Vec<(OffsetCategory, usize)> {
    catalog.iter().map(|(category, targets)| (*category, targets.len())).collect()
}

fn describe(target: &Target) -> (&str, &str, &str) {
    match target {
        Target::Fixed { name, hex } => ("fixed", name, hex),
        Target::Pattern { name, pattern } => ("pattern", name, pattern),
        Target::Regex { name, pattern } => ("regex", name, pattern),
        Target::AoB { name, signature } => ("aob", name, signature),
        Target::Separator => ("separator", "", ""),
    }
}

#[test]
fn variant_names() {
    assert_eq!(GameVariant::FreeFire.name(), "Free Fire");
    assert_eq!(GameVariant::FreeFireMax.name(), "Free Fire MAX");
    assert_eq!(GameVariant::FreeFireTela.name(), "Free Fire TELA");
    for variant in [GameVariant::FreeFire, GameVariant::FreeFireMax, GameVariant::FreeFireTela] {
        assert_eq!(variant.title(), variant.name().to_uppercase());
    }
    assert_eq!(GameVariant::FreeFire.namespace(), "FreeFire");
    assert_eq!(GameVariant::FreeFireMax.namespace(), "FreeFireMax");
    assert_eq!(GameVariant::FreeFireTela.namespace(), "FreeFireTela");
    assert_eq!(GameVariant::FreeFire.module_name(), "freefire");
    assert_eq!(GameVariant::FreeFireMax.module_name(), "freefire_max");
    assert_eq!(GameVariant::FreeFireTela.module_name(), "freefire_tela");
}

#[test]
fn category_names() {
    assert_eq!(OffsetCategory::Core.name(), "Core");
    assert_eq!(OffsetCategory::Player.name(), "Player");
    assert_eq!(OffsetCategory::Camera.name(), "Camera");
    assert_eq!(OffsetCategory::Weapon.name(), "Weapon");
    assert_eq!(OffsetCategory::Silent.name(), "Silent Aim");
    assert_eq!(OffsetCategory::Collision.name(), "Collision");
    assert_eq!(OffsetCategory::Attributes.name(), "Attributes");
    assert_eq!(OffsetCategory::Bot.name(), "Bot Detection");
    assert_eq!(OffsetCategory::Skeleton.name(), "Skeleton/Bones");
}

#[test]
fn export_format_extensions() {
    assert_eq!(ExportFormat::Json.extension(), "json");
    assert_eq!(ExportFormat::CppHeader.extension(), "hpp");
    assert_eq!(ExportFormat::RustModule.extension(), "rs");
    assert_eq!(ExportFormat::PlainText.extension(), "txt");
}

#[test]
fn target_constructors_and_names() {
    assert_eq!(describe(&Target::new_fixed("A", "0x1")), ("fixed", "A", "0x1"));
    assert_eq!(describe(&Target::new_pattern("B", "text")), ("pattern", "B", "text"));
    assert_eq!(describe(&Target::new_regex("C", "a+")), ("regex", "C", "a+"));
    assert_eq!(describe(&Target::new_aob("D", "41 ??")), ("aob", "D", "41 ??"));
    assert_eq!(Target::new_fixed("A", "0x1").name(), Some("A"));
    assert_eq!(Target::new_pattern("B", "text").name(), Some("B"));
    assert_eq!(Target::new_regex("C", "a+").name(), Some("C"));
    assert_eq!(Target::new_aob("D", "41 ??").name(), Some("D"));
    assert_eq!(Target::Separator.name(), None);
}

#[test]
fn standard_catalog() {
    let catalog = get_game_config(GameVariant::FreeFire);
    assert_eq!(
        shape(&catalog),
        vec![
            (OffsetCategory::Core, 6),
            (OffsetCategory::Player, 12),
            (OffsetCategory::Camera, 4),
            (OffsetCategory::Weapon, 6),
            (OffsetCategory::Silent, 4),
            (OffsetCategory::Collision, 1),
            (OffsetCategory::Attributes, 3),
            (OffsetCategory::Bot, 1),
            (OffsetCategory::Skeleton, 6),
        ]
    );
    assert_eq!(describe(&catalog[0].1[0]), ("fixed", "StaticClass", "0x5C"));
    assert_eq!(
        describe(&catalog[0].1[5]),
        ("aob", "NetworkManager_AoB", "48 8B 05 ?? ?? ?? ?? 48 0F 44 C8")
    );
    assert_eq!(
        describe(&catalog[1].1[1]),
        ("regex", "Player_Name", "protected string [A-Z]{11}; // 0x")
    );
    assert_eq!(
        describe(&catalog[1].1[4]),
        ("pattern", "Player_ShadowBase", "public PlayerNetwork.HHCBNAPCKHF m_ShadowState;")
    );
    assert_eq!(describe(&catalog[3].1[5]), ("fixed", "ViewMatrix", "0x98 + 0x24"));
    assert_eq!(describe(&catalog[7].1[0]), ("pattern", "isBot", "public bool IsClientBot;"));
    assert_eq!(
        describe(&catalog[8].1[5]),
        ("regex", "RightHand", "protected ITransformNode [A-Z]{11};")
    );
}

#[test]
fn max_and_tela_catalogs_extend_the_standard_one() {
    let standard = get_game_config(GameVariant::FreeFire);
    let max = get_game_config(GameVariant::FreeFireMax);
    let tela = get_game_config(GameVariant::FreeFireTela);
    assert_eq!(shape(&max)[..9], shape(&standard)[..]);
    assert_eq!(shape(&tela)[..9], shape(&standard)[..]);
    assert_eq!(shape(&max)[9..], [(OffsetCategory::Core, 2)]);
    assert_eq!(
        shape(&tela)[9..],
        [
            (OffsetCategory::Weapon, 4),
            (OffsetCategory::Camera, 2),
            (OffsetCategory::Attributes, 3),
            (OffsetCategory::Core, 4),
        ]
    );
    for (extended, base) in max.iter().zip(standard.iter()) {
        let got: Vec<_> = extended.1.iter().map(describe).collect();
        let want: Vec<_> = base.1.iter().map(describe).collect();
        assert_eq!(got, want);
    }
    assert_eq!(describe(&max[9].1[0]), ("fixed", "MaxGraphicsSystem", "0x120"));
    assert_eq!(
        describe(&max[9].1[1]),
        (
            "aob",
            "MaxRenderer_AoB",
            "48 89 5C 24 ?? 48 89 74 24 ?? 57 48 83 EC 20 48 8B F1 41 8B D8"
        )
    );
    assert_eq!(
        describe(&tela[9].1[3]),
        ("aob", "TELA_WeaponSpread", "F3 0F 10 41 ?? F3 0F 58 41 ?? F3 0F 11 41 ?? C3")
    );
    assert_eq!(describe(&tela[12].1[0]), ("fixed", "TelaSystem", "0xA0"));
    assert_eq!(
        describe(&tela[12].1[3]),
        (
            "aob",
            "TelaMatchManager",
            "48 8B 0D ?? ?? ?? ?? 48 8B 01 48 8B 80 ?? 00 00 00 FF D0 48 8B C8"
        )
    );
}

#[test]
fn shipped_catalogs_are_well_formed() {
    for variant in [GameVariant::FreeFire, GameVariant::FreeFireMax, GameVariant::FreeFireTela] {
        let catalog = get_game_config(variant);
        assert!(is_valid_catalog(&catalog));
        let loaded = load_game_config(variant).unwrap();
        assert_eq!(shape(&loaded), shape(&catalog));
        let names = signature_name_list(&catalog);
        let report = scan_text("", &catalog);
        assert_eq!(names, report.iter().map(|r| r.name.as_str()).collect::<Vec<_>>());
    }
    assert_eq!(signature_name_list(&get_game_config(GameVariant::FreeFire)).len(), 43);
    assert_eq!(signature_name_list(&get_game_config(GameVariant::FreeFireMax)).len(), 45);
    assert_eq!(signature_name_list(&get_game_config(GameVariant::FreeFireTela)).len(), 56);
}

#[test]
fn catalog_validation() {
    assert!(is_valid_catalog(&[]));
    assert!(is_valid_catalog(&[(OffsetCategory::Core, vec![Target::Separator])]));
    assert!(is_valid_catalog(&[(
        OffsetCategory::Core,
        vec![Target::new_fixed("A", "0x1"), Target::Separator, Target::new_fixed("a", "0x1")]
    )]));
    assert!(!is_valid_catalog(&[(OffsetCategory::Core, vec![Target::new_fixed("", "0x1")])]));
    assert!(!is_valid_catalog(&[(
        OffsetCategory::Core,
        vec![Target::new_fixed("A", "0x1"), Target::new_pattern("A", "x")]
    )]));
    assert!(!is_valid_catalog(&[
        (OffsetCategory::Core, vec![Target::new_fixed("A", "0x1"), Target::new_aob("B", "41")]),
        (OffsetCategory::Player, vec![Target::new_regex("C", "x"), Target::new_regex("A", "y")]),
    ]));
    assert!(names_are_valid(&["a", "b", "ab"]));
    assert!(!names_are_valid(&["a", "b", "a"]));
    assert!(!names_are_valid(&["a", ""]));
}

#[test]
fn variant_detection() {
    assert_eq!(detect_game_variant("class FreeFireMAX {}"), Some(GameVariant::FreeFireMax));
    assert_eq!(detect_game_variant("MaxGraphics"), Some(GameVariant::FreeFireMax));
    assert_eq!(
        detect_game_variant("FreeFireTELA and MaxGraphics"),
        Some(GameVariant::FreeFireMax)
    );
    assert_eq!(detect_game_variant("x FreeFireTELA y"), Some(GameVariant::FreeFireTela));
    assert_eq!(detect_game_variant("int TelaVersion;"), Some(GameVariant::FreeFireTela));
    assert_eq!(detect_game_variant("namespace FreeFire"), Some(GameVariant::FreeFire));
    assert_eq!(detect_game_variant("PlayerNetwork.X y;"), Some(GameVariant::FreeFire));
    assert_eq!(detect_game_variant("FreeFireMax"), Some(GameVariant::FreeFire));
    assert_eq!(detect_game_variant("freefire"), None);
    assert_eq!(detect_game_variant(""), None);
}

#[test]
fn single_list_catalog() {
    let targets = get_targets();
    assert_eq!(targets.len(), 55);
    assert_eq!(targets.iter().filter(|t| t.name().is_none()).count(), 8);
    assert_eq!(describe(&targets[0]), ("fixed", "StaticClass", "0x5C"));
    assert_eq!(describe(&targets[4]), ("separator", "", ""));
    assert_eq!(
        describe(&targets[6]),
        ("pattern", "Player_Name", "protected string OIAJCBLDHKP;")
    );
    assert_eq!(describe(&targets[14]), ("fixed", "CurrentMatch", "0x50"));
    assert_eq!(
        describe(&targets[54]),
        ("pattern", "RightElbow", "protected ITransformNode FGECMMJKFNC;")
    );
    assert!(is_valid_catalog(&[(OffsetCategory::Core, targets)]));
}

#[test]
fn flat_search_keeps_a_place_for_separators() {
    let targets = vec![
        Target::new_fixed("A", "0x10"),
        Target::Separator,
        Target::new_pattern("B", "foo"),
        Target::new_pattern("C", "nowhere"),
    ];
    assert_eq!(
        search_offsets("xxx foo 0x99\n", &targets),
        vec![
            ("A".to_string(), Some("0x10".to_string())),
            (String::new(), None),
            ("B".to_string(), Some("0x99".to_string())),
            ("C".to_string(), None),
        ]
    );
    assert!(search_offsets("text", &[]).is_empty());
}

#[test]
fn standard_catalog_against_a_dump() {
    let dump = "\
// Namespace: FreeFire
public class Player
{
\tprotected string ABCDEFGHIJK; // 0x2C
\tpublic float HEALTHVALUE; // 0x30
\tpublic PlayerNetwork.HHCBNAPCKHF m_ShadowState; // 0x1A0
\tpublic bool IsClientBot; // 0x2D8
}
";
    let catalog = get_game_config(GameVariant::FreeFire);
    let report = scan_text(dump, &catalog);
    assert_eq!(report.len(), 43);
    let find = |name: &str| report.iter().find(|r| r.name == name).unwrap();
    assert_eq!(find("StaticClass").offset.as_deref(), Some("0x5C"));
    assert_eq!(find("Player_Name").offset.as_deref(), Some("0x2C"));
    assert_eq!(find("Player_CurHealth").offset.as_deref(), Some("0x30"));
    assert_eq!(find("Player_ShadowBase").offset.as_deref(), Some("0x1A0"));
    assert_eq!(find("isBot").offset.as_deref(), Some("0x2D8"));
    assert_eq!(find("isBot").category, "Bot Detection");
    assert_eq!(find("NetworkManager_AoB").offset, None);
    assert_eq!(find("Head").offset, None);
    let image = [0x90, 0x48, 0x8B, 0x05, 1, 2, 3, 4, 0x48, 0x0F, 0x44, 0xC8];
    let binary = scan_binary(&image, &catalog);
    let find = |name: &str| binary.iter().find(|r| r.name == name).unwrap();
    assert_eq!(find("NetworkManager_AoB").offset.as_deref(), Some("0x1"));
    assert_eq!(find("StaticClass").offset, None);
}

#[test]
fn flat_listing_counts_leave_separators_out() {
    let targets = vec![
        Target::new_fixed("A", "0x10"),
        Target::Separator,
        Target::new_pattern("B", "foo"),
        Target::new_pattern("C", "nowhere"),
        Target::Separator,
    ];
    let results = search_offsets("xxx foo 0x99\n", &targets);
    assert_eq!(count_listed(&results), (2, 3));
    assert_eq!(count_listed(&[]), (0, 0));
    assert_eq!(count_listed(&[(String::new(), Some("0x1".to_string()))]), (0, 0));
    let all = search_offsets("", &get_targets());
    assert_eq!(all.len(), 55);
    assert_eq!(count_listed(&all), (18, 47));
}
