//! The signature catalogs of the three game editions, and the choice of an
//! edition from the text of a dump.

use crate::differ::names_unique;
use crate::models::{GameVariant, OffsetCategory, OffsetResultView, Target, TargetView};
use crate::scanner::{category_entries, catalog_view, entry, report, targets_view, ContentView};
use crate::text::{contains_text, line_texts, same_text, text_contains};
use vstd::prelude::*;

verus! {

/// The signatures of the core group.
pub open spec fn core_signatures() -> Seq<TargetView> {
    seq![
        TargetView::Fixed { name: "StaticClass"@, hex: "0x5C"@ },
        TargetView::Fixed { name: "MatchStatus"@, hex: "0x3C"@ },
        TargetView::Fixed { name: "LocalPlayer"@, hex: "0x7C"@ },
        TargetView::Fixed { name: "DictionaryEntities"@, hex: "0x68"@ },
        TargetView::Fixed { name: "CurrentMatch"@, hex: "0x50"@ },
        TargetView::AoB {
            name: "NetworkManager_AoB"@,
            signature: "48 8B 05 ?? ?? ?? ?? 48 0F 44 C8"@,
        },
    ]
}

fn core_targets() -> (targets: Vec<Target>)
    ensures
        targets_view(targets@) == core_signatures(),
{
    let targets = vec![
        Target::new_fixed("StaticClass", "0x5C"),
        Target::new_fixed("MatchStatus", "0x3C"),
        Target::new_fixed("LocalPlayer", "0x7C"),
        Target::new_fixed("DictionaryEntities", "0x68"),
        Target::new_fixed("CurrentMatch", "0x50"),
        Target::new_aob("NetworkManager_AoB", "48 8B 05 ?? ?? ?? ?? 48 0F 44 C8"),
    ];
    assert(targets_view(targets@) =~= core_signatures());
    targets
}

/// The signatures of the player group.
pub open spec fn player_signatures() -> Seq<TargetView> {
    seq![
        TargetView::Fixed { name: "Player_IsDead"@, hex: "0x4C"@ },
        TargetView::Regex { name: "Player_Name"@, pattern: "protected string [A-Z]{11}; // 0x"@ },
        TargetView::Regex { name: "Player_CurHealth"@, pattern: "public float [A-Z]{11}; // 0x"@ },
        TargetView::Regex { name: "Player_MaxHealth"@, pattern: "public float [A-Z]{11}; // 0x"@ },
        TargetView::Pattern {
            name: "Player_ShadowBase"@,
            pattern: "public PlayerNetwork.HHCBNAPCKHF m_ShadowState;"@,
        },
        TargetView::Fixed { name: "XPose"@, hex: "0x78"@ },
        TargetView::Regex {
            name: "AvatarManager"@,
            pattern: "protected AvatarManager [A-Z]{11};"@,
        },
        TargetView::Fixed { name: "Avatar"@, hex: "0x94"@ },
        TargetView::Fixed { name: "Avatar_IsVisible"@, hex: "0x7C"@ },
        TargetView::Fixed { name: "Avatar_Data"@, hex: "0x10"@ },
        TargetView::Fixed { name: "Avatar_Data_IsTeam"@, hex: "0x51"@ },
        TargetView::Regex { name: "Player_TeamID"@, pattern: "public int [A-Z]{11}; // 0x"@ },
    ]
}

fn player_targets() -> (targets: Vec<Target>)
    ensures
        targets_view(targets@) == player_signatures(),
{
    let targets = vec![
        Target::new_fixed("Player_IsDead", "0x4C"),
        Target::new_regex("Player_Name", "protected string [A-Z]{11}; // 0x"),
        Target::new_regex("Player_CurHealth", "public float [A-Z]{11}; // 0x"),
        Target::new_regex("Player_MaxHealth", "public float [A-Z]{11}; // 0x"),
        Target::new_pattern("Player_ShadowBase", "public PlayerNetwork.HHCBNAPCKHF m_ShadowState;"),
        Target::new_fixed("XPose", "0x78"),
        Target::new_regex("AvatarManager", "protected AvatarManager [A-Z]{11};"),
        Target::new_fixed("Avatar", "0x94"),
        Target::new_fixed("Avatar_IsVisible", "0x7C"),
        Target::new_fixed("Avatar_Data", "0x10"),
        Target::new_fixed("Avatar_Data_IsTeam", "0x51"),
        Target::new_regex("Player_TeamID", "public int [A-Z]{11}; // 0x"),
    ];
    assert(targets_view(targets@) =~= player_signatures());
    targets
}

/// The signatures of the camera group.
pub open spec fn camera_signatures() -> Seq<TargetView> {
    seq![
        TargetView::Regex { name: "FollowCamera"@, pattern: "protected FollowCamera [A-Z]{11};"@ },
        TargetView::Fixed { name: "Camera"@, hex: "0x14"@ },
        TargetView::Pattern {
            name: "AimRotation"@,
            pattern: "private Quaternion <KCFEHMAIIINO>k__BackingField;"@,
        },
        TargetView::Pattern {
            name: "MainCameraTransform"@,
            pattern: "public Transform MainCameraTransform;"@,
        },
    ]
}

fn camera_targets() -> (targets: Vec<Target>)
    ensures
        targets_view(targets@) == camera_signatures(),
{
    let targets = vec![
        Target::new_regex("FollowCamera", "protected FollowCamera [A-Z]{11};"),
        Target::new_fixed("Camera", "0x14"),
        Target::new_pattern("AimRotation", "private Quaternion <KCFEHMAIIINO>k__BackingField;"),
        Target::new_pattern("MainCameraTransform", "public Transform MainCameraTransform;"),
    ];
    assert(targets_view(targets@) =~= camera_signatures());
    targets
}

/// The signatures of the weapon group.
pub open spec fn weapon_signatures() -> Seq<TargetView> {
    seq![
        TargetView::Regex { name: "Weapon"@, pattern: "public [A-Z]{11} ActiveUISightingWeapon;"@ },
        TargetView::Fixed { name: "WeaponData"@, hex: "0x58"@ },
        TargetView::Fixed { name: "WeaponRecoil"@, hex: "0xC"@ },
        TargetView::Regex { name: "WeaponSpread"@, pattern: "public float [A-Z]{11}; // 0x"@ },
        TargetView::Regex { name: "WeaponFireRate"@, pattern: "public float [A-Z]{11}; // 0x"@ },
        TargetView::Fixed { name: "ViewMatrix"@, hex: "0x98 + 0x24"@ },
    ]
}

fn weapon_targets() -> (targets: Vec<Target>)
    ensures
        targets_view(targets@) == weapon_signatures(),
{
    let targets = vec![
        Target::new_regex("Weapon", "public [A-Z]{11} ActiveUISightingWeapon;"),
        Target::new_fixed("WeaponData", "0x58"),
        Target::new_fixed("WeaponRecoil", "0xC"),
        Target::new_regex("WeaponSpread", "public float [A-Z]{11}; // 0x"),
        Target::new_regex("WeaponFireRate", "public float [A-Z]{11}; // 0x"),
        Target::new_fixed("ViewMatrix", "0x98 + 0x24"),
    ];
    assert(targets_view(targets@) =~= weapon_signatures());
    targets
}

/// The signatures of the silent-aim group.
pub open spec fn silent_signatures() -> Seq<TargetView> {
    seq![
        TargetView::Pattern {
            name: "Silent1"@,
            pattern: "private bool <LPEIEILIKGC>k__BackingField;"@,
        },
        TargetView::Regex { name: "Silent2"@, pattern: "private [A-Z]{11} [A-Z]{11};"@ },
        TargetView::Fixed { name: "Silent3"@, hex: "0x38"@ },
        TargetView::Fixed { name: "Silent4"@, hex: "0x2C"@ },
    ]
}

fn silent_targets() -> (targets: Vec<Target>)
    ensures
        targets_view(targets@) == silent_signatures(),
{
    let targets = vec![
        Target::new_pattern("Silent1", "private bool <LPEIEILIKGC>k__BackingField;"),
        Target::new_regex("Silent2", "private [A-Z]{11} [A-Z]{11};"),
        Target::new_fixed("Silent3", "0x38"),
        Target::new_fixed("Silent4", "0x2C"),
    ];
    assert(targets_view(targets@) =~= silent_signatures());
    targets
}

/// The signatures of the collision group.
pub open spec fn collision_signatures() -> Seq<TargetView> {
    seq![
        TargetView::Regex { name: "HeadCollider"@, pattern: "protected Collider [A-Z]{11};"@ },
    ]
}

fn collision_targets() -> (targets: Vec<Target>)
    ensures
        targets_view(targets@) == collision_signatures(),
{
    let targets = vec![
        Target::new_regex("HeadCollider", "protected Collider [A-Z]{11};"),
    ];
    assert(targets_view(targets@) =~= collision_signatures());
    targets
}

/// The signatures of the attributes group.
pub open spec fn attributes_signatures() -> Seq<TargetView> {
    seq![
        TargetView::Regex {
            name: "PlayerAttributes"@,
            pattern: "protected PlayerAttributes [A-Z]{11};"@,
        },
        TargetView::Fixed { name: "NoReload"@, hex: "0x91"@ },
        TargetView::Regex { name: "WalkSpeed"@, pattern: "public float [A-Z]{11}; // 0x"@ },
    ]
}

fn attributes_targets() -> (targets: Vec<Target>)
    ensures
        targets_view(targets@) == attributes_signatures(),
{
    let targets = vec![
        Target::new_regex("PlayerAttributes", "protected PlayerAttributes [A-Z]{11};"),
        Target::new_fixed("NoReload", "0x91"),
        Target::new_regex("WalkSpeed", "public float [A-Z]{11}; // 0x"),
    ];
    assert(targets_view(targets@) =~= attributes_signatures());
    targets
}

/// The signatures of the bot-detection group.
pub open spec fn bot_signatures() -> Seq<TargetView> {
    seq![
        TargetView::Pattern { name: "isBot"@, pattern: "public bool IsClientBot;"@ },
    ]
}

fn bot_targets() -> (targets: Vec<Target>)
    ensures
        targets_view(targets@) == bot_signatures(),
{
    let targets = vec![
        Target::new_pattern("isBot", "public bool IsClientBot;"),
    ];
    assert(targets_view(targets@) =~= bot_signatures());
    targets
}

/// The signatures of the skeleton group.
pub open spec fn skeleton_signatures() -> Seq<TargetView> {
    seq![
        TargetView::Regex { name: "Head"@, pattern: "protected ITransformNode [A-Z]{11};"@ },
        TargetView::Regex { name: "Root"@, pattern: "protected ITransformNode [A-Z]{11};"@ },
        TargetView::Regex { name: "Spine"@, pattern: "protected ITransformNode [A-Z]{11};"@ },
        TargetView::Regex { name: "Hip"@, pattern: "protected ITransformNode [A-Z]{11};"@ },
        TargetView::Regex { name: "LeftHand"@, pattern: "protected ITransformNode [A-Z]{11};"@ },
        TargetView::Regex { name: "RightHand"@, pattern: "protected ITransformNode [A-Z]{11};"@ },
    ]
}

fn skeleton_targets() -> (targets: Vec<Target>)
    ensures
        targets_view(targets@) == skeleton_signatures(),
{
    let targets = vec![
        Target::new_regex("Head", "protected ITransformNode [A-Z]{11};"),
        Target::new_regex("Root", "protected ITransformNode [A-Z]{11};"),
        Target::new_regex("Spine", "protected ITransformNode [A-Z]{11};"),
        Target::new_regex("Hip", "protected ITransformNode [A-Z]{11};"),
        Target::new_regex("LeftHand", "protected ITransformNode [A-Z]{11};"),
        Target::new_regex("RightHand", "protected ITransformNode [A-Z]{11};"),
    ];
    assert(targets_view(targets@) =~= skeleton_signatures());
    targets
}

/// What the MAX edition adds to the core group.
pub open spec fn max_core_signatures() -> Seq<TargetView> {
    seq![
        TargetView::Fixed { name: "MaxGraphicsSystem"@, hex: "0x120"@ },
        TargetView::AoB {
            name: "MaxRenderer_AoB"@,
            signature: "48 89 5C 24 ?? 48 89 74 24 ?? 57 48 83 EC 20 48 8B F1 41 8B D8"@,
        },
    ]
}

fn max_core_targets() -> (targets: Vec<Target>)
    ensures
        targets_view(targets@) == max_core_signatures(),
{
    let targets = vec![
        Target::new_fixed("MaxGraphicsSystem", "0x120"),
        Target::new_aob(
            "MaxRenderer_AoB",
            "48 89 5C 24 ?? 48 89 74 24 ?? 57 48 83 EC 20 48 8B F1 41 8B D8",
        ),
    ];
    assert(targets_view(targets@) =~= max_core_signatures());
    targets
}

/// What the TELA edition adds to the weapon group.
pub open spec fn tela_weapon_signatures() -> Seq<TargetView> {
    seq![
        TargetView::AoB {
            name: "TELA_Aimbot_Assist"@,
            signature: "F3 0F 10 05 ?? ?? ?? ?? F3 0F 58 05 ?? ?? ?? ?? F3 0F 11 05"@,
        },
        TargetView::AoB {
            name: "TELA_NoRecoil"@,
            signature: "F3 0F 10 05 ?? ?? ?? ?? F3 0F 5C 05 ?? ?? ?? ?? 0F 28 C1"@,
        },
        TargetView::AoB {
            name: "TELA_InstantHit"@,
            signature: "40 53 48 83 EC 20 48 8B DA 0F 29 74 24 ?? 48 8B 0D ?? ?? ?? ??"@,
        },
        TargetView::AoB {
            name: "TELA_WeaponSpread"@,
            signature: "F3 0F 10 41 ?? F3 0F 58 41 ?? F3 0F 11 41 ?? C3"@,
        },
    ]
}

fn tela_weapon_targets() -> (targets: Vec<Target>)
    ensures
        targets_view(targets@) == tela_weapon_signatures(),
{
    let targets = vec![
        Target::new_aob(
            "TELA_Aimbot_Assist",
            "F3 0F 10 05 ?? ?? ?? ?? F3 0F 58 05 ?? ?? ?? ?? F3 0F 11 05",
        ),
        Target::new_aob(
            "TELA_NoRecoil",
            "F3 0F 10 05 ?? ?? ?? ?? F3 0F 5C 05 ?? ?? ?? ?? 0F 28 C1",
        ),
        Target::new_aob(
            "TELA_InstantHit",
            "40 53 48 83 EC 20 48 8B DA 0F 29 74 24 ?? 48 8B 0D ?? ?? ?? ??",
        ),
        Target::new_aob("TELA_WeaponSpread", "F3 0F 10 41 ?? F3 0F 58 41 ?? F3 0F 11 41 ?? C3"),
    ];
    assert(targets_view(targets@) =~= tela_weapon_signatures());
    targets
}

/// What the TELA edition adds to the camera group.
pub open spec fn tela_camera_signatures() -> Seq<TargetView> {
    seq![
        TargetView::AoB {
            name: "TELA_Wallhack_Chams"@,
            signature: "48 8B 05 ?? ?? ?? ?? 48 8B 88 ?? ?? ?? ?? 80 BB ?? ?? ?? ?? ?? 74 ??"@,
        },
        TargetView::AoB {
            name: "TELA_ESP_Line"@,
            signature: "E8 ?? ?? ?? ?? 48 8B 4B ?? 48 8B 01 FF 90 ?? ?? ?? ?? 48 8D 4D ??"@,
        },
    ]
}

fn tela_camera_targets() -> (targets: Vec<Target>)
    ensures
        targets_view(targets@) == tela_camera_signatures(),
{
    let targets = vec![
        Target::new_aob(
            "TELA_Wallhack_Chams",
            "48 8B 05 ?? ?? ?? ?? 48 8B 88 ?? ?? ?? ?? 80 BB ?? ?? ?? ?? ?? 74 ??",
        ),
        Target::new_aob(
            "TELA_ESP_Line",
            "E8 ?? ?? ?? ?? 48 8B 4B ?? 48 8B 01 FF 90 ?? ?? ?? ?? 48 8D 4D ??",
        ),
    ];
    assert(targets_view(targets@) =~= tela_camera_signatures());
    targets
}

/// What the TELA edition adds to the attributes group.
pub open spec fn tela_attributes_signatures() -> Seq<TargetView> {
    seq![
        TargetView::AoB {
            name: "TELA_SpeedHack"@,
            signature: "F3 0F 10 ?? ?? ?? ?? ?? F3 0F 59 ?? F3 0F 11 ?? ?? ?? ?? ??"@,
        },
        TargetView::AoB {
            name: "TELA_SkyFly"@,
            signature: "48 8B 05 ?? ?? ?? ?? 48 8B 88 ?? ?? ?? ?? F3 0F 10 81 ?? ?? ?? ??"@,
        },
        TargetView::AoB {
            name: "TELA_Underground"@,
            signature: "F3 0F 10 81 ?? ?? ?? ?? F3 0F 5C 81 ?? ?? ?? ?? F3 0F 11 81 ?? ?? ?? ??"@,
        },
    ]
}

fn tela_attributes_targets() -> (targets: Vec<Target>)
    ensures
        targets_view(targets@) == tela_attributes_signatures(),
{
    let targets = vec![
        Target::new_aob(
            "TELA_SpeedHack",
            "F3 0F 10 ?? ?? ?? ?? ?? F3 0F 59 ?? F3 0F 11 ?? ?? ?? ?? ??",
        ),
        Target::new_aob(
            "TELA_SkyFly",
            "48 8B 05 ?? ?? ?? ?? 48 8B 88 ?? ?? ?? ?? F3 0F 10 81 ?? ?? ?? ??",
        ),
        Target::new_aob(
            "TELA_Underground",
            "F3 0F 10 81 ?? ?? ?? ?? F3 0F 5C 81 ?? ?? ?? ?? F3 0F 11 81 ?? ?? ?? ??",
        ),
    ];
    assert(targets_view(targets@) =~= tela_attributes_signatures());
    targets
}

/// What the TELA edition adds to the core group.
pub open spec fn tela_core_signatures() -> Seq<TargetView> {
    seq![
        TargetView::Fixed { name: "TelaSystem"@, hex: "0xA0"@ },
        TargetView::AoB {
            name: "TelaLocalPlayer"@,
            signature: "48 8B 05 ?? ?? ?? ?? 48 8B 88 ?? ?? ?? ?? 48 85 C9 74 ?? 48 8B 01"@,
        },
        TargetView::AoB {
            name: "TelaViewMatrix"@,
            signature: "E8 ?? ?? ?? ?? 48 8D 4C 24 ?? E8 ?? ?? ?? ?? 48 8B ?? ?? ?? ?? ?? 48 8B"@,
        },
        TargetView::AoB {
            name: "TelaMatchManager"@,
            signature: "48 8B 0D ?? ?? ?? ?? 48 8B 01 48 8B 80 ?? 00 00 00 FF D0 48 8B C8"@,
        },
    ]
}

fn tela_core_targets() -> (targets: Vec<Target>)
    ensures
        targets_view(targets@) == tela_core_signatures(),
{
    let targets = vec![
        Target::new_fixed("TelaSystem", "0xA0"),
        Target::new_aob(
            "TelaLocalPlayer",
            "48 8B 05 ?? ?? ?? ?? 48 8B 88 ?? ?? ?? ?? 48 85 C9 74 ?? 48 8B 01",
        ),
        Target::new_aob(
            "TelaViewMatrix",
            "E8 ?? ?? ?? ?? 48 8D 4C 24 ?? E8 ?? ?? ?? ?? 48 8B ?? ?? ?? ?? ?? 48 8B",
        ),
        Target::new_aob(
            "TelaMatchManager",
            "48 8B 0D ?? ?? ?? ?? 48 8B 01 48 8B 80 ?? 00 00 00 FF D0 48 8B C8",
        ),
    ];
    assert(targets_view(targets@) =~= tela_core_signatures());
    targets
}

/// The catalog of the standard edition.
pub open spec fn freefire_catalog() -> Seq<(OffsetCategory, Seq<TargetView>)> {
    seq![
        (OffsetCategory::Core, core_signatures()),
        (OffsetCategory::Player, player_signatures()),
        (OffsetCategory::Camera, camera_signatures()),
        (OffsetCategory::Weapon, weapon_signatures()),
        (OffsetCategory::Silent, silent_signatures()),
        (OffsetCategory::Collision, collision_signatures()),
        (OffsetCategory::Attributes, attributes_signatures()),
        (OffsetCategory::Bot, bot_signatures()),
        (OffsetCategory::Skeleton, skeleton_signatures()),
    ]
}

/// The catalog of the MAX edition: that of the standard edition, and one
/// more group.
pub open spec fn freefire_max_catalog() -> Seq<(OffsetCategory, Seq<TargetView>)> {
    freefire_catalog() + seq![(OffsetCategory::Core, max_core_signatures())]
}

/// The catalog of the TELA edition: that of the standard edition, and four
/// more groups.
pub open spec fn freefire_tela_catalog() -> Seq<(OffsetCategory, Seq<TargetView>)> {
    freefire_catalog() + seq![
        (OffsetCategory::Weapon, tela_weapon_signatures()),
        (OffsetCategory::Camera, tela_camera_signatures()),
        (OffsetCategory::Attributes, tela_attributes_signatures()),
        (OffsetCategory::Core, tela_core_signatures()),
    ]
}

/// The catalog of an edition.
pub open spec fn game_catalog(variant: GameVariant) -> Seq<(OffsetCategory, Seq<TargetView>)> {
    match variant {
        GameVariant::FreeFire => freefire_catalog(),
        GameVariant::FreeFireMax => freefire_max_catalog(),
        GameVariant::FreeFireTela => freefire_tela_catalog(),
    }
}

fn get_freefire_offsets() -> (catalog: Vec<(OffsetCategory, Vec<Target>)>)
    ensures
        catalog_view(catalog@) == freefire_catalog(),
{
    let catalog = vec![
        (OffsetCategory::Core, core_targets()),
        (OffsetCategory::Player, player_targets()),
        (OffsetCategory::Camera, camera_targets()),
        (OffsetCategory::Weapon, weapon_targets()),
        (OffsetCategory::Silent, silent_targets()),
        (OffsetCategory::Collision, collision_targets()),
        (OffsetCategory::Attributes, attributes_targets()),
        (OffsetCategory::Bot, bot_targets()),
        (OffsetCategory::Skeleton, skeleton_targets()),
    ];
    assert(catalog_view(catalog@) =~= freefire_catalog());
    catalog
}

fn get_freefire_max_offsets() -> (catalog: Vec<(OffsetCategory, Vec<Target>)>)
    ensures
        catalog_view(catalog@) == freefire_max_catalog(),
{
    let mut catalog = get_freefire_offsets();
    catalog.push((OffsetCategory::Core, max_core_targets()));
    assert(catalog_view(catalog@) =~= freefire_max_catalog());
    catalog
}

fn get_freefire_tela_offsets() -> (catalog: Vec<(OffsetCategory, Vec<Target>)>)
    ensures
        catalog_view(catalog@) == freefire_tela_catalog(),
{
    let mut catalog = get_freefire_offsets();
    catalog.push((OffsetCategory::Weapon, tela_weapon_targets()));
    catalog.push((OffsetCategory::Camera, tela_camera_targets()));
    catalog.push((OffsetCategory::Attributes, tela_attributes_targets()));
    catalog.push((OffsetCategory::Core, tela_core_targets()));
    assert(catalog_view(catalog@) =~= freefire_tela_catalog());
    catalog
}

/// The signature catalog of an edition.
pub fn get_game_config(variant: GameVariant) -> (catalog: Vec<(OffsetCategory, Vec<Target>)>)
    ensures
        catalog_view(catalog@) == game_catalog(variant),
{
    match variant {
        GameVariant::FreeFire => get_freefire_offsets(),
        GameVariant::FreeFireMax => get_freefire_max_offsets(),
        GameVariant::FreeFireTela => get_freefire_tela_offsets(),
    }
}

/// The core part of the single-list catalog.
pub open spec fn listed_core() -> Seq<TargetView> {
    seq![
        TargetView::Fixed { name: "StaticClass"@, hex: "0x5C"@ },
        TargetView::Fixed { name: "MatchStatus"@, hex: "0x3C"@ },
        TargetView::Fixed { name: "LocalPlayer"@, hex: "0x7C"@ },
        TargetView::Fixed { name: "DictionaryEntities"@, hex: "0x68"@ },
        TargetView::Separator,
    ]
}

fn push_core(targets: &mut Vec<Target>)
    ensures
        targets_view(final(targets)@) == targets_view(old(targets)@) + listed_core(),
{
    let ghost before = targets_view(targets@);
    targets.push(Target::new_fixed("StaticClass", "0x5C"));
    targets.push(Target::new_fixed("MatchStatus", "0x3C"));
    targets.push(Target::new_fixed("LocalPlayer", "0x7C"));
    targets.push(Target::new_fixed("DictionaryEntities", "0x68"));
    targets.push(Target::Separator);
    assert(targets_view(targets@) =~= before + listed_core());
}

/// The player part of the single-list catalog.
pub open spec fn listed_player() -> Seq<TargetView> {
    seq![
        TargetView::Fixed { name: "Player_IsDead"@, hex: "0x4C"@ },
        TargetView::Pattern { name: "Player_Name"@, pattern: "protected string OIAJCBLDHKP;"@ },
        TargetView::Pattern {
            name: "Player_ShadowBase"@,
            pattern: "public PlayerNetwork.HHCBNAPCKHF m_ShadowState;"@,
        },
        TargetView::Fixed { name: "XPose"@, hex: "0x78"@ },
        TargetView::Pattern {
            name: "AvatarManager"@,
            pattern: "protected AvatarManager FOGJNGDMJKJ;"@,
        },
        TargetView::Fixed { name: "Avatar"@, hex: "0x94"@ },
        TargetView::Fixed { name: "Avatar_IsVisible"@, hex: "0x7C"@ },
        TargetView::Fixed { name: "Avatar_Data"@, hex: "0x10"@ },
        TargetView::Fixed { name: "Avatar_Data_IsTeam"@, hex: "0x51"@ },
        TargetView::Fixed { name: "CurrentMatch"@, hex: "0x50"@ },
        TargetView::Separator,
    ]
}

fn push_player(targets: &mut Vec<Target>)
    ensures
        targets_view(final(targets)@) == targets_view(old(targets)@) + listed_player(),
{
    let ghost before = targets_view(targets@);
    targets.push(Target::new_fixed("Player_IsDead", "0x4C"));
    targets.push(Target::new_pattern("Player_Name", "protected string OIAJCBLDHKP;"));
    targets.push(Target::new_pattern("Player_ShadowBase", "public PlayerNetwork.HHCBNAPCKHF m_ShadowState;"));
    targets.push(Target::new_fixed("XPose", "0x78"));
    targets.push(Target::new_pattern("AvatarManager", "protected AvatarManager FOGJNGDMJKJ;"));
    targets.push(Target::new_fixed("Avatar", "0x94"));
    targets.push(Target::new_fixed("Avatar_IsVisible", "0x7C"));
    targets.push(Target::new_fixed("Avatar_Data", "0x10"));
    targets.push(Target::new_fixed("Avatar_Data_IsTeam", "0x51"));
    targets.push(Target::new_fixed("CurrentMatch", "0x50"));
    targets.push(Target::Separator);
    assert(targets_view(targets@) =~= before + listed_player());
}

/// The camera part of the single-list catalog.
pub open spec fn listed_camera() -> Seq<TargetView> {
    seq![
        TargetView::Pattern {
            name: "FollowCamera"@,
            pattern: "protected FollowCamera CHDOHNOEBML;"@,
        },
        TargetView::Fixed { name: "Camera"@, hex: "0x14"@ },
        TargetView::Pattern {
            name: "AimRotation"@,
            pattern: "private Quaternion <KCFEHMAIIINO>k__BackingField;"@,
        },
        TargetView::Pattern {
            name: "MainCameraTransform"@,
            pattern: "public Transform MainCameraTransform;"@,
        },
        TargetView::Separator,
    ]
}

fn push_camera(targets: &mut Vec<Target>)
    ensures
        targets_view(final(targets)@) == targets_view(old(targets)@) + listed_camera(),
{
    let ghost before = targets_view(targets@);
    targets.push(Target::new_pattern("FollowCamera", "protected FollowCamera CHDOHNOEBML;"));
    targets.push(Target::new_fixed("Camera", "0x14"));
    targets.push(Target::new_pattern("AimRotation", "private Quaternion <KCFEHMAIIINO>k__BackingField;"));
    targets.push(Target::new_pattern("MainCameraTransform", "public Transform MainCameraTransform;"));
    targets.push(Target::Separator);
    assert(targets_view(targets@) =~= before + listed_camera());
}

/// The weapon part of the single-list catalog.
pub open spec fn listed_weapon() -> Seq<TargetView> {
    seq![
        TargetView::Pattern {
            name: "Weapon"@,
            pattern: "public GPBDEDFKJNA ActiveUISightingWeapon;"@,
        },
        TargetView::Fixed { name: "WeaponData"@, hex: "0x58"@ },
        TargetView::Fixed { name: "WeaponRecoil"@, hex: "0xC"@ },
        TargetView::Fixed { name: "ViewMatrix"@, hex: "0x98 + 0x24"@ },
        TargetView::Separator,
    ]
}

fn push_weapon(targets: &mut Vec<Target>)
    ensures
        targets_view(final(targets)@) == targets_view(old(targets)@) + listed_weapon(),
{
    let ghost before = targets_view(targets@);
    targets.push(Target::new_pattern("Weapon", "public GPBDEDFKJNA ActiveUISightingWeapon;"));
    targets.push(Target::new_fixed("WeaponData", "0x58"));
    targets.push(Target::new_fixed("WeaponRecoil", "0xC"));
    targets.push(Target::new_fixed("ViewMatrix", "0x98 + 0x24"));
    targets.push(Target::Separator);
    assert(targets_view(targets@) =~= before + listed_weapon());
}

/// The silent-aim part of the single-list catalog.
pub open spec fn listed_silent() -> Seq<TargetView> {
    seq![
        TargetView::Pattern {
            name: "Silent1"@,
            pattern: "private bool <LPEIEILIKGC>k__BackingField;"@,
        },
        TargetView::Pattern { name: "Silent2"@, pattern: "private MADMMIICBNN GEGFCFDGGGP;"@ },
        TargetView::Fixed { name: "Silent3"@, hex: "0x38"@ },
        TargetView::Fixed { name: "Silent4"@, hex: "0x2C"@ },
        TargetView::Separator,
    ]
}

fn push_silent(targets: &mut Vec<Target>)
    ensures
        targets_view(final(targets)@) == targets_view(old(targets)@) + listed_silent(),
{
    let ghost before = targets_view(targets@);
    targets.push(Target::new_pattern("Silent1", "private bool <LPEIEILIKGC>k__BackingField;"));
    targets.push(Target::new_pattern("Silent2", "private MADMMIICBNN GEGFCFDGGGP;"));
    targets.push(Target::new_fixed("Silent3", "0x38"));
    targets.push(Target::new_fixed("Silent4", "0x2C"));
    targets.push(Target::Separator);
    assert(targets_view(targets@) =~= before + listed_silent());
}

/// The collision part of the single-list catalog.
pub open spec fn listed_collision() -> Seq<TargetView> {
    seq![
        TargetView::Pattern { name: "HeadCollider"@, pattern: "protected Collider HECFNHJKOMN;"@ },
        TargetView::Separator,
    ]
}

fn push_collision(targets: &mut Vec<Target>)
    ensures
        targets_view(final(targets)@) == targets_view(old(targets)@) + listed_collision(),
{
    let ghost before = targets_view(targets@);
    targets.push(Target::new_pattern("HeadCollider", "protected Collider HECFNHJKOMN;"));
    targets.push(Target::Separator);
    assert(targets_view(targets@) =~= before + listed_collision());
}

/// The attributes part of the single-list catalog.
pub open spec fn listed_attributes() -> Seq<TargetView> {
    seq![
        TargetView::Pattern {
            name: "PlayerAttributes"@,
            pattern: "protected PlayerAttributes JKPFFNEMJIF;"@,
        },
        TargetView::Fixed { name: "NoReload"@, hex: "0x91"@ },
        TargetView::Separator,
    ]
}

fn push_attributes(targets: &mut Vec<Target>)
    ensures
        targets_view(final(targets)@) == targets_view(old(targets)@) + listed_attributes(),
{
    let ghost before = targets_view(targets@);
    targets.push(Target::new_pattern("PlayerAttributes", "protected PlayerAttributes JKPFFNEMJIF;"));
    targets.push(Target::new_fixed("NoReload", "0x91"));
    targets.push(Target::Separator);
    assert(targets_view(targets@) =~= before + listed_attributes());
}

/// The bot-detection part of the single-list catalog.
pub open spec fn listed_bot() -> Seq<TargetView> {
    seq![
        TargetView::Pattern { name: "isBot"@, pattern: "public bool IsClientBot;"@ },
        TargetView::Separator,
    ]
}

fn push_bot(targets: &mut Vec<Target>)
    ensures
        targets_view(final(targets)@) == targets_view(old(targets)@) + listed_bot(),
{
    let ghost before = targets_view(targets@);
    targets.push(Target::new_pattern("isBot", "public bool IsClientBot;"));
    targets.push(Target::Separator);
    assert(targets_view(targets@) =~= before + listed_bot());
}

/// The skeleton part of the single-list catalog.
pub open spec fn listed_skeleton() -> Seq<TargetView> {
    seq![
        TargetView::Pattern { name: "Head"@, pattern: "protected ITransformNode OLCJOGDHJJJ;"@ },
        TargetView::Pattern { name: "Root"@, pattern: "protected ITransformNode MPJBGDJJJMJ;"@ },
        TargetView::Pattern {
            name: "LeftWrist"@,
            pattern: "protected ITransformNode GCMICMFEAKI;"@,
        },
        TargetView::Pattern { name: "Spine"@, pattern: "protected ITransformNode HCLMADAFLPD;"@ },
        TargetView::Pattern { name: "Hip"@, pattern: "protected ITransformNode CENAIGAFGAG;"@ },
        TargetView::Pattern {
            name: "RightCalf"@,
            pattern: "protected ITransformNode JPBJIMCDBHN;"@,
        },
        TargetView::Pattern {
            name: "LeftCalf"@,
            pattern: "protected ITransformNode BMGCHFGEDDA;"@,
        },
        TargetView::Pattern {
            name: "RightFoot"@,
            pattern: "protected ITransformNode AGHJLIMNPJA;"@,
        },
        TargetView::Pattern {
            name: "LeftFoot"@,
            pattern: "protected ITransformNode FDMBKCKMODA;"@,
        },
        TargetView::Pattern {
            name: "RightWrist"@,
            pattern: "protected ITransformNode CKABHDJDMAP;"@,
        },
        TargetView::Pattern {
            name: "LeftHand"@,
            pattern: "protected ITransformNode KOCDBPLKMBI;"@,
        },
        TargetView::Pattern {
            name: "LeftShoulder"@,
            pattern: "protected ITransformNode LIBEIIIAGIK;"@,
        },
        TargetView::Pattern {
            name: "RightShoulder"@,
            pattern: "protected ITransformNode HDEPJIBNIIK;"@,
        },
        TargetView::Pattern {
            name: "RightWristJoint"@,
            pattern: "protected ITransformNode NJDDAPKPILB;"@,
        },
        TargetView::Pattern {
            name: "LeftWristJoint"@,
            pattern: "protected ITransformNode JHIBMHEMJOL;"@,
        },
        TargetView::Pattern {
            name: "LeftElbow"@,
            pattern: "protected ITransformNode JBACCHNMGNJ;"@,
        },
        TargetView::Pattern {
            name: "RightElbow"@,
            pattern: "protected ITransformNode FGECMMJKFNC;"@,
        },
    ]
}

fn push_skeleton(targets: &mut Vec<Target>)
    ensures
        targets_view(final(targets)@) == targets_view(old(targets)@) + listed_skeleton(),
{
    let ghost before = targets_view(targets@);
    targets.push(Target::new_pattern("Head", "protected ITransformNode OLCJOGDHJJJ;"));
    targets.push(Target::new_pattern("Root", "protected ITransformNode MPJBGDJJJMJ;"));
    targets.push(Target::new_pattern("LeftWrist", "protected ITransformNode GCMICMFEAKI;"));
    targets.push(Target::new_pattern("Spine", "protected ITransformNode HCLMADAFLPD;"));
    targets.push(Target::new_pattern("Hip", "protected ITransformNode CENAIGAFGAG;"));
    targets.push(Target::new_pattern("RightCalf", "protected ITransformNode JPBJIMCDBHN;"));
    targets.push(Target::new_pattern("LeftCalf", "protected ITransformNode BMGCHFGEDDA;"));
    targets.push(Target::new_pattern("RightFoot", "protected ITransformNode AGHJLIMNPJA;"));
    targets.push(Target::new_pattern("LeftFoot", "protected ITransformNode FDMBKCKMODA;"));
    targets.push(Target::new_pattern("RightWrist", "protected ITransformNode CKABHDJDMAP;"));
    targets.push(Target::new_pattern("LeftHand", "protected ITransformNode KOCDBPLKMBI;"));
    targets.push(Target::new_pattern("LeftShoulder", "protected ITransformNode LIBEIIIAGIK;"));
    targets.push(Target::new_pattern("RightShoulder", "protected ITransformNode HDEPJIBNIIK;"));
    targets.push(Target::new_pattern("RightWristJoint", "protected ITransformNode NJDDAPKPILB;"));
    targets.push(Target::new_pattern("LeftWristJoint", "protected ITransformNode JHIBMHEMJOL;"));
    targets.push(Target::new_pattern("LeftElbow", "protected ITransformNode JBACCHNMGNJ;"));
    targets.push(Target::new_pattern("RightElbow", "protected ITransformNode FGECMMJKFNC;"));
    assert(targets_view(targets@) =~= before + listed_skeleton());
}

/// The single-list catalog: the signatures of the standard edition as exact
/// texts, with a separator after each group but the last.
pub open spec fn listed_targets() -> Seq<TargetView> {
    listed_core()
        + listed_player()
        + listed_camera()
        + listed_weapon()
        + listed_silent()
        + listed_collision()
        + listed_attributes()
        + listed_bot()
        + listed_skeleton()
}

/// The single-list catalog of the standard edition, in which every pattern
/// is an exact text and separators part the groups.
pub fn get_targets() -> (targets: Vec<Target>)
    ensures
        targets_view(targets@) == listed_targets(),
{
    let mut targets: Vec<Target> = Vec::new();
    assert(targets_view(targets@) =~= Seq::empty());
    push_core(&mut targets);
    push_player(&mut targets);
    push_camera(&mut targets);
    push_weapon(&mut targets);
    push_silent(&mut targets);
    push_collision(&mut targets);
    push_attributes(&mut targets);
    push_bot(&mut targets);
    push_skeleton(&mut targets);
    assert(targets_view(targets@) =~= listed_targets());
    targets
}

/// The names of the signatures of one category, in order.
pub open spec fn signature_names(targets: Seq<TargetView>) -> Seq<Seq<char>>
    decreases targets.len(),
{
    if targets.len() == 0 {
        seq![]
    } else {
        signature_names(targets.drop_last()) + match targets.last().name() {
            Some(name) => seq![name],
            None => seq![],
        }
    }
}

/// The names of the signatures of a catalog, in catalog order.
pub open spec fn catalog_names(catalog: Seq<(OffsetCategory, Seq<TargetView>)>) -> Seq<Seq<char>>
    decreases catalog.len(),
{
    if catalog.len() == 0 {
        seq![]
    } else {
        catalog_names(catalog.drop_last()) + signature_names(catalog.last().1)
    }
}

/// No name is empty, and none occurs twice.
pub open spec fn names_valid(names: Seq<Seq<char>>) -> bool {
    &&& forall|i: int| 0 <= i < names.len() ==> (#[trigger] names[i]).len() > 0
    &&& forall|i: int, j: int|
        0 <= i < j < names.len() ==> (#[trigger] names[i]) != (#[trigger] names[j])
}

/// The catalog is well-formed: every signature has a name that is not
/// empty, and no two signatures share a name.
pub open spec fn catalog_valid(catalog: Seq<(OffsetCategory, Seq<TargetView>)>) -> bool {
    names_valid(catalog_names(catalog))
}

/// The names that the entries of a report carry, in order.
pub open spec fn report_names(report: Seq<OffsetResultView>) -> Seq<Seq<char>> {
    Seq::new(report.len(), |i: int| report[i].name)
}

proof fn lemma_category_names(
    content: ContentView,
    category: OffsetCategory,
    targets: Seq<TargetView>,
)
    ensures
        report_names(category_entries(content, category, targets)) == signature_names(targets),
    decreases targets.len(),
{
    if targets.len() > 0 {
        lemma_category_names(content, category, targets.drop_last());
        assert(report_names(category_entries(content, category, targets)) =~= report_names(
            category_entries(content, category, targets.drop_last()),
        ) + report_names(entry(content, category, targets.last())));
        assert(report_names(entry(content, category, targets.last())) =~= match targets.last().name() {
            Some(name) => seq![name],
            None => seq![],
        });
    } else {
        assert(report_names(category_entries(content, category, targets)) =~= signature_names(
            targets,
        ));
    }
}

/// The entries of a report carry the names of the catalog's signatures, in
/// catalog order, whatever was scanned.
pub proof fn lemma_report_names(
    content: ContentView,
    catalog: Seq<(OffsetCategory, Seq<TargetView>)>,
)
    ensures
        report_names(report(content, catalog)) == catalog_names(catalog),
    decreases catalog.len(),
{
    if catalog.len() > 0 {
        lemma_report_names(content, catalog.drop_last());
        lemma_category_names(content, catalog.last().0, catalog.last().1);
        assert(report_names(report(content, catalog)) =~= report_names(
            report(content, catalog.drop_last()),
        ) + report_names(category_entries(content, catalog.last().0, catalog.last().1)));
    } else {
        assert(report_names(report(content, catalog)) =~= catalog_names(catalog));
    }
}

/// The report of a well-formed catalog repeats no name.
pub proof fn lemma_valid_catalog_unique_names(
    content: ContentView,
    catalog: Seq<(OffsetCategory, Seq<TargetView>)>,
)
    requires
        catalog_valid(catalog),
    ensures
        names_unique(report(content, catalog)),
{
    lemma_report_names(content, catalog);
    let found = report(content, catalog);
    assert forall|i: int, j: int| 0 <= i < j < found.len() implies (#[trigger] found[i]).name != (
    #[trigger] found[j]).name by {
        assert(report_names(found)[i] == found[i].name);
        assert(report_names(found)[j] == found[j].name);
    }
}

/// The names of the signatures of a catalog, in catalog order.
pub fn signature_name_list<'a>(catalog: &'a [(OffsetCategory, Vec<Target>)]) -> (names: Vec<
    &'a str,
>)
    ensures
        line_texts(names@) == catalog_names(catalog_view(catalog@)),
{
    let ghost model = catalog_view(catalog@);
    let mut names: Vec<&'a str> = Vec::new();
    let mut c: usize = 0;
    assert(model.take(0) =~= Seq::empty());
    assert(line_texts(names@) =~= Seq::empty());
    while c < catalog.len()
        invariant
            c <= catalog@.len(),
            model == catalog_view(catalog@),
            line_texts(names@) == catalog_names(model.take(c as int)),
        decreases catalog@.len() - c,
    {
        let signatures = &catalog[c].1;
        let ghost listed = targets_view(signatures@);
        let ghost before = line_texts(names@);
        let mut t: usize = 0;
        assert(listed.take(0) =~= Seq::empty());
        assert(before + signature_names(listed.take(0)) =~= before);
        while t < signatures.len()
            invariant
                t <= signatures@.len(),
                listed == targets_view(signatures@),
                line_texts(names@) == before + signature_names(listed.take(t as int)),
            decreases signatures@.len() - t,
        {
            let ghost sofar = line_texts(names@);
            match signatures[t].name() {
                Some(name) => {
                    names.push(name);
                    assert(line_texts(names@) =~= sofar + seq![name@]);
                },
                None => {},
            }
            proof {
                assert(listed.take(t + 1).drop_last() =~= listed.take(t as int));
                assert(listed.take(t + 1).last() == signatures@[t as int]@);
                assert(line_texts(names@) =~= before + signature_names(listed.take(t + 1)));
            }
            t += 1;
        }
        proof {
            assert(listed.take(signatures@.len() as int) =~= listed);
            assert(model.take(c + 1).drop_last() =~= model.take(c as int));
            assert(model.take(c + 1).last().1 == listed);
        }
        c += 1;
    }
    assert(model.take(catalog@.len() as int) =~= model);
    names
}

/// Whether no name of the list is empty and none occurs twice.
pub fn names_are_valid(names: &[&str]) -> (r: bool)
    ensures
        r == names_valid(line_texts(names@)),
{
    let ghost texts = line_texts(names@);
    let mut j: usize = 0;
    while j < names.len()
        invariant
            j <= names@.len(),
            texts == line_texts(names@),
            forall|i: int| 0 <= i < j ==> (#[trigger] texts[i]).len() > 0,
            forall|i: int, k: int| 0 <= i < k < j ==> (#[trigger] texts[i]) != (#[trigger] texts[k]),
        decreases names@.len() - j,
    {
        if names[j].unicode_len() == 0 {
            assert(texts[j as int].len() == 0);
            return false;
        }
        let mut i: usize = 0;
        while i < j
            invariant
                i <= j < names@.len(),
                texts == line_texts(names@),
                forall|k: int| 0 <= k < i ==> (#[trigger] texts[k]) != texts[j as int],
            decreases j - i,
        {
            if same_text(names[i], names[j]) {
                assert(texts[i as int] == texts[j as int]);
                return false;
            }
            i += 1;
        }
        j += 1;
    }
    true
}

/// Whether the catalog is well-formed: every signature has a name that is
/// not empty, and no two signatures share a name.
pub fn is_valid_catalog(catalog: &[(OffsetCategory, Vec<Target>)]) -> (r: bool)
    ensures
        r == catalog_valid(catalog_view(catalog@)),
{
    let names = signature_name_list(catalog);
    names_are_valid(names.as_slice())
}

/// The catalog of an edition, once it is known to be well-formed: `None`
/// where a signature of the catalog has no name or two share one.
pub fn load_game_config(variant: GameVariant) -> (catalog: Option<
    Vec<(OffsetCategory, Vec<Target>)>,
>)
    ensures
        match catalog {
            Some(loaded) => catalog_view(loaded@) == game_catalog(variant) && catalog_valid(
                game_catalog(variant),
            ),
            None => !catalog_valid(game_catalog(variant)),
        },
{
    let catalog = get_game_config(variant);
    if is_valid_catalog(catalog.as_slice()) {
        Some(catalog)
    } else {
        None
    }
}

/// The edition that the text of a dump names. The marks of the MAX edition
/// are looked for first, then those of the TELA edition, then those of the
/// standard edition.
pub open spec fn named_variant(content: Seq<char>) -> Option<GameVariant> {
    if text_contains(content, "FreeFireMAX"@) || text_contains(content, "MaxGraphics"@) {
        Some(GameVariant::FreeFireMax)
    } else if text_contains(content, "FreeFireTELA"@) || text_contains(content, "TelaVersion"@) {
        Some(GameVariant::FreeFireTela)
    } else if text_contains(content, "FreeFire"@) || text_contains(content, "PlayerNetwork"@) {
        Some(GameVariant::FreeFire)
    } else {
        None
    }
}

/// Tells the edition from the text of a dump; `None` where the text names
/// none.
pub fn detect_game_variant(content: &str) -> (variant: Option<GameVariant>)
    ensures
        variant == named_variant(content@),
{
    if contains_text(content, "FreeFireMAX") || contains_text(content, "MaxGraphics") {
        return Some(GameVariant::FreeFireMax);
    }
    if contains_text(content, "FreeFireTELA") || contains_text(content, "TelaVersion") {
        return Some(GameVariant::FreeFireTela);
    }
    if contains_text(content, "FreeFire") || contains_text(content, "PlayerNetwork") {
        return Some(GameVariant::FreeFire);
    }
    None
}

} // verus!
