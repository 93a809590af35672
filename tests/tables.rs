use libsekiro::flags::FlagId;
use libsekiro::memory::SimMemory;
use libsekiro::patch::apply_patch;
use libsekiro::pointers::{ExtraAddresses, Pointers};
use libsekiro::versions::{BaseAddresses, UnrecognizedVersion, Version};

const EXTRA: ExtraAddresses = ExtraAddresses { debug_show: 0x3d7e000, grapple_debug: 0x3d7f000, fps: 0x3d80000 };

#[test]
fn known_versions_are_recognized() {
    assert_eq!(Version::try_from((1, 2, 0)), Ok(Version::V1_02_0));
    assert_eq!(Version::try_from((1, 6, 0)), Ok(Version::V1_06_0));
    assert_eq!(Version::V1_05_0.tuple(), (1, 5, 0));
}

#[test]
fn unknown_version_is_an_error() {
    assert_eq!(
        Version::try_from((1, 7, 0)),
        Err(UnrecognizedVersion { major: 1, minor: 7, patch: 0 })
    );
}

#[test]
fn table_lookup_and_relocation() {
    let t = BaseAddresses::from(Version::V1_05_0);
    assert_eq!(t.quitout, 0x3d67368);
    assert_eq!(t.no_logo, 0xe1b1ab);
    let a = t.with_module_base_addr(0x1_4000_0000);
    assert_eq!(a.quitout, 0x1_4000_0000 + 0x3d67368);
    assert_eq!(a.debug_flags, 0x1_4000_0000 + 0x3d7a2c9);
    assert_eq!(BaseAddresses::from(Version::V1_03_0), BaseAddresses::from(Version::V1_04_0));
}

#[test]
fn pointers_follow_the_table() {
    let base = 0x1_4000_0000usize;
    let p = Pointers::new(Version::V1_06_0, base, EXTRA);
    assert_eq!(p.position.base, base + 0x3d7a1e0);
    assert_eq!(p.position.offsets, vec![0, 0x48, 0x28, 0x80]);
    assert_eq!(p.quitout.offsets, vec![0, 0x23C]);
    assert_eq!(p.anim_speed.offsets, vec![0, 0x48, 0x28, 0xA40, 0x4C0, 0x250, 0x10, 0xD00]);
    assert_eq!(p.debug_color.base, base + 0x3d77fa4 + 0xC);
    assert!(p.debug_color.offsets.is_empty());
    assert_eq!(p.all_no_stamina_consume.mask, 1);
    assert_eq!(p.all_no_stamina_consume.chain.base, base + 0x3d7a369 + 20);
}

#[test]
fn player_flags_move_with_the_release() {
    let base = 0x1_4000_0000usize;
    let late = Pointers::new(Version::V1_06_0, base, EXTRA);
    assert_eq!(late.player_no_dead.chain.base, base + 0x3d7a369 - 3);
    assert_eq!(late.player_exterminate.chain.base, base + 0x3d7a369 - 2);
    assert_eq!(late.player_exterminate_stamina.chain.base, base + 0x3d7a369 - 1);
    let early = Pointers::new(Version::V1_03_0, base, EXTRA);
    assert_eq!(early.player_no_dead.chain.base, base + 0x3b68f99 + 33);
    assert_eq!(early.player_exterminate.chain.base, base + 0x3b68f99 + 52);
    assert_eq!(early.player_silence.chain.base, base + 0x3b68f99 + 7);
}

#[test]
fn flag_keys() {
    assert_eq!(FlagId::from_key("player_hide"), Ok(FlagId::PlayerHide));
    assert_eq!(FlagId::from_key("debug_render7"), Ok(FlagId::DebugRender7));
    assert_eq!(
        FlagId::from_key("grapple"),
        Err("\"grapple\" is not a valid flag specifier".to_string())
    );
    assert_eq!(FlagId::AllNoUpdateAi.label(), "All No Update AI");
    assert_eq!(FlagId::from_key("player_exterminate_stamina"), Ok(FlagId::PlayerExterminateStamina));
    assert_eq!(FlagId::PlayerExterminateStamina.label(), "Exterminate Stamina");
    assert_eq!(FlagId::from_key("debug_show"), Ok(FlagId::DebugShow));
    assert_eq!(FlagId::from_key("grapple_debug_path"), Ok(FlagId::GrappleDebugPath));
    assert_eq!(FlagId::from_key("grapple_debug_col"), Ok(FlagId::GrappleDebugCol));
    assert_eq!(FlagId::GrappleDebugCol.label(), "Grapple Debug (Col)");
    assert_eq!(FlagId::from_key("fps"), Err("\"fps\" is not a valid flag specifier".to_string()));
    let p = Pointers::new(Version::V1_02_0, 0x1000, EXTRA);
    assert_eq!(p.flag(FlagId::RenderMobs).chain.base, 0x1000 + 0x39007c8 + 2);
}

#[test]
fn logo_patch_inverts_jump_once() {
    let base = 0x1_4000_0000usize;
    let at = base + 0xdebf2b;
    let mut mem = SimMemory::new(at - 2, vec![0xAA, 0xBB, 0x74, 0x30, 0xCC]);
    assert!(apply_patch(&mut mem, Version::V1_02_0, base));
    assert_eq!(mem.as_bytes(), &[0xAA, 0xBB, 0x75, 0x30, 0xCC]);
    assert!(!apply_patch(&mut mem, Version::V1_02_0, base));
    assert_eq!(mem.as_bytes(), &[0xAA, 0xBB, 0x75, 0x30, 0xCC]);
    let mut elsewhere = SimMemory::new(0x10, vec![0x74, 0x30]);
    assert!(!apply_patch(&mut elsewhere, Version::V1_06_0, base));
    assert_eq!(elsewhere.as_bytes(), &[0x74, 0x30]);
}

#[test]
fn debug_show_and_grapple_flags() {
    let base = 0x1_4000_0000usize;
    let late = Pointers::new(Version::V1_05_0, base, EXTRA);
    assert_eq!(late.debug_show.chain.base, base + 0x3d7e000);
    assert_eq!(late.debug_show.chain.offsets, vec![0, 0x6F]);
    assert_eq!(late.grapple_debug_path.chain.base, base + 0x3d7f000);
    assert_eq!(late.grapple_debug_path.chain.offsets, vec![0, 0xC8, 0x20, 0xF68]);
    assert_eq!(late.grapple_debug_col.chain.offsets, vec![0, 0xC8, 0x20, 0xF6A]);
    assert_eq!(late.fps.base, base + 0x3d80000);
    assert_eq!(late.fps.offsets, vec![0, 0x2BC]);
    let early = Pointers::new(Version::V1_04_0, base, EXTRA);
    assert_eq!(early.grapple_debug_path.chain.offsets, vec![0, 0xC8, 0x20, 0xEC8]);
    assert_eq!(early.grapple_debug_col.chain.offsets, vec![0, 0xC8, 0x20, 0xECA]);
    assert_eq!(early.flag(FlagId::DebugShow).mask, 1);
}
