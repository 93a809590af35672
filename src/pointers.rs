//! The chains and flags that the tool reads and writes, built from the address table of the
//! running release and the load address of its image.
use vstd::prelude::*;

use crate::bitflag::Bitflag;
use crate::chain::PointerChain;
use crate::versions::{table_of, BaseAddresses, Version};

verus! {

/// A flag at `addr` itself, on its lowest bit.
pub open spec fn flag_at(f: Bitflag, addr: int) -> bool {
    f.chain.base == addr && f.chain.offsets@.len() == 0 && f.mask == 1
}

/// A chain from `base` that follows the pointer stored there and then the given offsets.
pub open spec fn chain_through<T>(c: PointerChain<T>, base: int, offs: Seq<usize>) -> bool {
    c.base == base && c.offsets@ == seq![0usize] + offs
}

/// A flag on the lowest bit of the byte that a chain from `base` through the pointer stored
/// there and then `offs` leads to.
pub open spec fn flag_through(f: Bitflag, base: int, offs: Seq<usize>) -> bool {
    chain_through(f.chain, base, offs) && f.mask == 1
}

/// A chain that reads its value at `addr` itself.
pub open spec fn chain_at<T>(c: PointerChain<T>, addr: int) -> bool {
    c.base == addr && c.offsets@.len() == 0
}

/// Every address that the chains and flags are built on can be formed in an image loaded
/// at `base`.
pub open spec fn relocatable(t: BaseAddresses, base: int) -> bool {
    &&& t.fits_base(base)
    &&& t.render_world + base + 3 <= usize::MAX
    &&& t.debug_render + base + 0xC <= usize::MAX
    &&& t.debug_flags + base + 52 <= usize::MAX
}

/// Offsets within the image of features that the release tables do not carry, as a scan
/// of the running release finds them.
#[derive(Clone, Copy, Debug, PartialEq, Eq, Structural)]
pub struct ExtraAddresses {
    pub debug_show: usize,
    pub grapple_debug: usize,
    pub fps: usize,
}

/// Every extra address can be formed in an image loaded at `base`.
pub open spec fn extra_relocatable(e: ExtraAddresses, base: int) -> bool {
    &&& e.debug_show + base <= usize::MAX
    &&& e.grapple_debug + base <= usize::MAX
    &&& e.fps + base <= usize::MAX
}

/// Where the grapple debug flags lie in the structure that they belong to.
pub open spec fn grapple_debug_offset(v: Version) -> usize {
    if early_release(v) {
        0xEC8
    } else {
        0xF68
    }
}

/// Releases before 1.05, whose player flags are laid out differently.
pub open spec fn early_release(v: Version) -> bool {
    v == Version::V1_02_0 || v == Version::V1_03_0 || v == Version::V1_04_0
}

/// Where the player's "no dead" flag lies relative to the debug flags.
pub open spec fn no_dead_offset(v: Version) -> int {
    if early_release(v) {
        33
    } else {
        -3
    }
}

/// Where the player's "exterminate" flag lies relative to the debug flags.
pub open spec fn exterminate_offset(v: Version) -> int {
    if early_release(v) {
        52
    } else {
        -2
    }
}

/// The chains and flags of the running game.
pub struct Pointers {
    /// Position and angle of the player, as the bits of four `f32`.
    pub position: PointerChain<[u32; 4]>,
    pub quitout: PointerChain<u8>,
    pub show_cursor: Bitflag,
    pub igt: PointerChain<u32>,
    /// Frame rate limit, as the bits of an `f32`.
    pub fps: PointerChain<u32>,
    /// Animation speed of the player, as the bits of an `f32`.
    pub anim_speed: PointerChain<u32>,
    pub render_world: Bitflag,
    pub render_objects: Bitflag,
    pub render_mobs: Bitflag,
    pub render_effects: Bitflag,
    pub debug_render0: Bitflag,
    pub debug_render1: Bitflag,
    pub debug_render2: Bitflag,
    pub debug_render3: Bitflag,
    pub debug_render4: Bitflag,
    pub debug_render5: Bitflag,
    pub debug_render6: Bitflag,
    pub debug_render7: Bitflag,
    pub debug_color: PointerChain<i32>,
    pub debug_show: Bitflag,
    pub grapple_debug_path: Bitflag,
    pub grapple_debug_col: Bitflag,
    pub player_no_goods_consume: Bitflag,
    pub player_no_resource_item_consume: Bitflag,
    pub player_no_revival_consume: Bitflag,
    pub player_hide: Bitflag,
    pub player_silence: Bitflag,
    pub player_no_dead: Bitflag,
    pub player_exterminate: Bitflag,
    pub player_exterminate_stamina: Bitflag,
    pub all_no_dead: Bitflag,
    pub all_no_damage: Bitflag,
    pub all_no_hit: Bitflag,
    pub all_no_attack: Bitflag,
    pub all_no_move: Bitflag,
    pub all_no_update_ai: Bitflag,
    pub all_no_stamina_consume: Bitflag,
}

fn flag(addr: usize) -> (r: Bitflag)
    ensures
        flag_at(r, addr as int),
{
    Bitflag::new(PointerChain::new(addr, Vec::new()), 1)
}

fn through<T: crate::chain::MemValue>(base: usize, offs: &[usize]) -> (r: PointerChain<T>)
    ensures
        chain_through(r, base as int, offs@),
{
    let mut v: Vec<usize> = Vec::new();
    v.push(0);
    let mut i: usize = 0;
    while i < offs.len()
        invariant
            i <= offs@.len(),
            v@ == seq![0usize] + offs@.subrange(0, i as int),
        decreases offs.len() - i,
    {
        v.push(offs[i]);
        i += 1;
        assert(v@ =~= seq![0usize] + offs@.subrange(0, i as int));
    }
    assert(offs@.subrange(0, i as int) =~= offs@);
    PointerChain::new(base, v)
}

impl Pointers {
    /// The chains and flags of `version`, for an image loaded at `module_base`, with the
    /// features that its table does not carry at the offsets `extra`.
    pub fn new(version: Version, module_base: usize, extra: ExtraAddresses) -> (r: Pointers)
        requires
            relocatable(table_of(version), module_base as int),
            extra_relocatable(extra, module_base as int),
        ensures
            ({
                let a = table_of(version).shifted(module_base as int);
                let g = grapple_debug_offset(version);
                &&& chain_through(r.fps, extra.fps + module_base, seq![0x2BCusize])
                &&& flag_through(r.debug_show, extra.debug_show + module_base, seq![0x6Fusize])
                &&& flag_through(
                    r.grapple_debug_path,
                    extra.grapple_debug + module_base,
                    seq![0xC8usize, 0x20, g],
                )
                &&& flag_through(
                    r.grapple_debug_col,
                    extra.grapple_debug + module_base,
                    seq![0xC8usize, 0x20, (g + 2) as usize],
                )
                &&& chain_through(r.position, a.player_position as int, seq![0x48usize, 0x28, 0x80])
                &&& chain_through(r.quitout, a.quitout as int, seq![0x23Cusize])
                &&& flag_at(r.show_cursor, a.show_cursor as int)
                &&& chain_through(r.igt, a.igt as int, seq![0x9Cusize])
                &&& chain_through(
                    r.anim_speed,
                    a.player_position as int,
                    seq![0x48usize, 0x28, 0xA40, 0x4C0, 0x250, 0x10, 0xD00],
                )
                &&& flag_at(r.render_world, a.render_world as int)
                &&& flag_at(r.render_objects, a.render_world + 1)
                &&& flag_at(r.render_mobs, a.render_world + 2)
                &&& flag_at(r.render_effects, a.render_world + 3)
                &&& flag_at(r.debug_render0, a.debug_render as int)
                &&& flag_at(r.debug_render1, a.debug_render + 1)
                &&& flag_at(r.debug_render2, a.debug_render + 2)
                &&& flag_at(r.debug_render3, a.debug_render + 5)
                &&& flag_at(r.debug_render4, a.debug_render + 6)
                &&& flag_at(r.debug_render5, a.debug_render + 7)
                &&& flag_at(r.debug_render6, a.debug_render + 8)
                &&& flag_at(r.debug_render7, a.debug_render + 9)
                &&& chain_at(r.debug_color, a.debug_render + 0xC)
                &&& flag_at(r.player_no_goods_consume, a.debug_flags as int)
                &&& flag_at(r.player_no_resource_item_consume, a.debug_flags + 1)
                &&& flag_at(r.player_no_revival_consume, a.debug_flags + 2)
                &&& flag_at(r.player_hide, a.debug_flags + 6)
                &&& flag_at(r.player_silence, a.debug_flags + 7)
                &&& flag_at(r.player_no_dead, a.debug_flags + no_dead_offset(version))
                &&& flag_at(r.player_exterminate, a.debug_flags + exterminate_offset(version))
                &&& flag_at(r.player_exterminate_stamina, a.debug_flags - 1)
                &&& flag_at(r.all_no_dead, a.debug_flags + 8)
                &&& flag_at(r.all_no_damage, a.debug_flags + 9)
                &&& flag_at(r.all_no_hit, a.debug_flags + 10)
                &&& flag_at(r.all_no_attack, a.debug_flags + 11)
                &&& flag_at(r.all_no_move, a.debug_flags + 12)
                &&& flag_at(r.all_no_update_ai, a.debug_flags + 13)
                &&& flag_at(r.all_no_stamina_consume, a.debug_flags + 20)
            }),
    {
        let a = BaseAddresses::from(version).with_module_base_addr(module_base);
        let rw = a.render_world;
        let dr = a.debug_render;
        let df = a.debug_flags;
        let early = match version {
            Version::V1_02_0 | Version::V1_03_0 | Version::V1_04_0 => true,
            Version::V1_05_0 | Version::V1_06_0 => false,
        };
        let no_dead = if early {
            df + 33
        } else {
            df - 3
        };
        let exterminate = if early {
            df + 52
        } else {
            df - 2
        };
        let grapple: usize = if early {
            0xEC8
        } else {
            0xF68
        };
        let show = extra.debug_show + module_base;
        let hook = extra.grapple_debug + module_base;
        let r = Pointers {
            position: through(a.player_position, &[0x48, 0x28, 0x80]),
            quitout: through(a.quitout, &[0x23C]),
            show_cursor: flag(a.show_cursor),
            igt: through(a.igt, &[0x9C]),
            fps: through(extra.fps + module_base, &[0x2BC]),
            anim_speed: through(a.player_position, &[0x48, 0x28, 0xA40, 0x4C0, 0x250, 0x10, 0xD00]),
            render_world: flag(rw),
            render_objects: flag(rw + 1),
            render_mobs: flag(rw + 2),
            render_effects: flag(rw + 3),
            debug_render0: flag(dr),
            debug_render1: flag(dr + 1),
            debug_render2: flag(dr + 2),
            debug_render3: flag(dr + 5),
            debug_render4: flag(dr + 6),
            debug_render5: flag(dr + 7),
            debug_render6: flag(dr + 8),
            debug_render7: flag(dr + 9),
            debug_color: PointerChain::new(dr + 0xC, Vec::new()),
            debug_show: Bitflag::new(through(show, &[0x6F]), 1),
            grapple_debug_path: Bitflag::new(through(hook, &[0xC8, 0x20, grapple]), 1),
            grapple_debug_col: Bitflag::new(through(hook, &[0xC8, 0x20, grapple + 2]), 1),
            player_no_goods_consume: flag(df),
            player_no_resource_item_consume: flag(df + 1),
            player_no_revival_consume: flag(df + 2),
            player_hide: flag(df + 6),
            player_silence: flag(df + 7),
            player_no_dead: flag(no_dead),
            player_exterminate: flag(exterminate),
            player_exterminate_stamina: flag(df - 1),
            all_no_dead: flag(df + 8),
            all_no_damage: flag(df + 9),
            all_no_hit: flag(df + 10),
            all_no_attack: flag(df + 11),
            all_no_move: flag(df + 12),
            all_no_update_ai: flag(df + 13),
            all_no_stamina_consume: flag(df + 20),
        };
        assert(r.quitout.offsets@ =~= seq![0usize] + seq![0x23Cusize]);
        assert(r.igt.offsets@ =~= seq![0usize] + seq![0x9Cusize]);
        assert(r.fps.offsets@ =~= seq![0usize] + seq![0x2BCusize]);
        assert(r.debug_show.chain.offsets@ =~= seq![0usize] + seq![0x6Fusize]);
        r
    }
}

} // verus!
