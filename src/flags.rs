//! Flags named by the keys that a configuration uses: a closed mapping from key to flag,
//! and from flag to its place among the pointers.
use vstd::prelude::*;
use vstd::string::StringExecFns;

use crate::bitflag::Bitflag;
use crate::pointers::Pointers;

verus! {

/// A flag that a configuration can name.
#[derive(Clone, Copy, Debug, PartialEq, Eq, Structural)]
pub enum FlagId {
    RenderWorld,
    RenderObjects,
    RenderMobs,
    RenderEffects,
    DebugRender0,
    DebugRender1,
    DebugRender2,
    DebugRender3,
    DebugRender4,
    DebugRender5,
    DebugRender6,
    DebugRender7,
    DebugShow,
    GrappleDebugPath,
    GrappleDebugCol,
    PlayerNoGoodsConsume,
    PlayerNoResourceItemConsume,
    PlayerNoRevivalConsume,
    PlayerHide,
    PlayerSilence,
    PlayerNoDead,
    PlayerExterminate,
    PlayerExterminateStamina,
    AllNoDead,
    AllNoDamage,
    AllNoHit,
    AllNoAttack,
    AllNoMove,
    AllNoUpdateAi,
    AllNoStaminaConsume,
}

/// The flag that a key names, if any.
pub open spec fn flag_of_key(k: Seq<char>) -> Option<FlagId> {
    if k == "render_world"@ {
        Some(FlagId::RenderWorld)
    } else if k == "render_objects"@ {
        Some(FlagId::RenderObjects)
    } else if k == "render_mobs"@ {
        Some(FlagId::RenderMobs)
    } else if k == "render_effects"@ {
        Some(FlagId::RenderEffects)
    } else if k == "debug_render0"@ {
        Some(FlagId::DebugRender0)
    } else if k == "debug_render1"@ {
        Some(FlagId::DebugRender1)
    } else if k == "debug_render2"@ {
        Some(FlagId::DebugRender2)
    } else if k == "debug_render3"@ {
        Some(FlagId::DebugRender3)
    } else if k == "debug_render4"@ {
        Some(FlagId::DebugRender4)
    } else if k == "debug_render5"@ {
        Some(FlagId::DebugRender5)
    } else if k == "debug_render6"@ {
        Some(FlagId::DebugRender6)
    } else if k == "debug_render7"@ {
        Some(FlagId::DebugRender7)
    } else if k == "debug_show"@ {
        Some(FlagId::DebugShow)
    } else if k == "grapple_debug_path"@ {
        Some(FlagId::GrappleDebugPath)
    } else if k == "grapple_debug_col"@ {
        Some(FlagId::GrappleDebugCol)
    } else if k == "player_no_goods_consume"@ {
        Some(FlagId::PlayerNoGoodsConsume)
    } else if k == "player_no_resource_item_consume"@ {
        Some(FlagId::PlayerNoResourceItemConsume)
    } else if k == "player_no_revival_consume"@ {
        Some(FlagId::PlayerNoRevivalConsume)
    } else if k == "player_hide"@ {
        Some(FlagId::PlayerHide)
    } else if k == "player_silence"@ {
        Some(FlagId::PlayerSilence)
    } else if k == "player_no_dead"@ {
        Some(FlagId::PlayerNoDead)
    } else if k == "player_exterminate"@ {
        Some(FlagId::PlayerExterminate)
    } else if k == "player_exterminate_stamina"@ {
        Some(FlagId::PlayerExterminateStamina)
    } else if k == "all_no_dead"@ {
        Some(FlagId::AllNoDead)
    } else if k == "all_no_damage"@ {
        Some(FlagId::AllNoDamage)
    } else if k == "all_no_hit"@ {
        Some(FlagId::AllNoHit)
    } else if k == "all_no_attack"@ {
        Some(FlagId::AllNoAttack)
    } else if k == "all_no_move"@ {
        Some(FlagId::AllNoMove)
    } else if k == "all_no_update_ai"@ {
        Some(FlagId::AllNoUpdateAi)
    } else if k == "all_no_stamina_consume"@ {
        Some(FlagId::AllNoStaminaConsume)
    } else {
        None
    }
}

/// The message for a key that names no flag.
pub open spec fn unknown_key_message(k: Seq<char>) -> Seq<char> {
    "\""@ + k + "\" is not a valid flag specifier"@
}

/// The label shown for each flag.
pub open spec fn label_of(id: FlagId) -> Seq<char> {
    match id {
        FlagId::RenderWorld => "Render World"@,
        FlagId::RenderObjects => "Render Objects"@,
        FlagId::RenderMobs => "Render Mobs"@,
        FlagId::RenderEffects => "Render Effects"@,
        FlagId::DebugRender0 => "Debug #0 (Low Col + Planes)"@,
        FlagId::DebugRender1 => "Debug #1 (High Col)"@,
        FlagId::DebugRender2 => "Debug #2 (Objects)"@,
        FlagId::DebugRender3 => "Debug #3 (Low Col?)"@,
        FlagId::DebugRender4 => "Debug #4 (Low Col?)"@,
        FlagId::DebugRender5 => "Debug #5 (Walls?)"@,
        FlagId::DebugRender6 => "Debug #6 (Wall Jump Col)"@,
        FlagId::DebugRender7 => "Debug #7 (Edge/Cliff Col)"@,
        FlagId::DebugShow => "Debug Show"@,
        FlagId::GrappleDebugPath => "Grapple Debug (Path)"@,
        FlagId::GrappleDebugCol => "Grapple Debug (Col)"@,
        FlagId::PlayerNoGoodsConsume => "No goods consume"@,
        FlagId::PlayerNoResourceItemConsume => "No resource consume"@,
        FlagId::PlayerNoRevivalConsume => "No revival consume"@,
        FlagId::PlayerHide => "Hide"@,
        FlagId::PlayerSilence => "Silence"@,
        FlagId::PlayerNoDead => "No Dead"@,
        FlagId::PlayerExterminate => "Exterminate"@,
        FlagId::PlayerExterminateStamina => "Exterminate Stamina"@,
        FlagId::AllNoDead => "All No Dead"@,
        FlagId::AllNoDamage => "All No Damage"@,
        FlagId::AllNoHit => "All No Hit"@,
        FlagId::AllNoAttack => "All No Attack"@,
        FlagId::AllNoMove => "All No Move"@,
        FlagId::AllNoUpdateAi => "All No Update AI"@,
        FlagId::AllNoStaminaConsume => "All No Stamina Consume"@,
    }
}

impl FlagId {
    /// The flag that `key` names, or the message that says it names none.
    pub fn from_key(key: &str) -> (r: Result<FlagId, String>)
        ensures
            match flag_of_key(key@) {
                Some(id) => r == Ok::<FlagId, String>(id),
                None => r is Err && r->Err_0@ == unknown_key_message(key@),
            },
    {
        let k = String::from_str(key);
        if k == String::from_str("render_world") {
            return Ok(FlagId::RenderWorld);
        }
        if k == String::from_str("render_objects") {
            return Ok(FlagId::RenderObjects);
        }
        if k == String::from_str("render_mobs") {
            return Ok(FlagId::RenderMobs);
        }
        if k == String::from_str("render_effects") {
            return Ok(FlagId::RenderEffects);
        }
        if k == String::from_str("debug_render0") {
            return Ok(FlagId::DebugRender0);
        }
        if k == String::from_str("debug_render1") {
            return Ok(FlagId::DebugRender1);
        }
        if k == String::from_str("debug_render2") {
            return Ok(FlagId::DebugRender2);
        }
        if k == String::from_str("debug_render3") {
            return Ok(FlagId::DebugRender3);
        }
        if k == String::from_str("debug_render4") {
            return Ok(FlagId::DebugRender4);
        }
        if k == String::from_str("debug_render5") {
            return Ok(FlagId::DebugRender5);
        }
        if k == String::from_str("debug_render6") {
            return Ok(FlagId::DebugRender6);
        }
        if k == String::from_str("debug_render7") {
            return Ok(FlagId::DebugRender7);
        }
        if k == String::from_str("debug_show") {
            return Ok(FlagId::DebugShow);
        }
        if k == String::from_str("grapple_debug_path") {
            return Ok(FlagId::GrappleDebugPath);
        }
        if k == String::from_str("grapple_debug_col") {
            return Ok(FlagId::GrappleDebugCol);
        }
        if k == String::from_str("player_no_goods_consume") {
            return Ok(FlagId::PlayerNoGoodsConsume);
        }
        if k == String::from_str("player_no_resource_item_consume") {
            return Ok(FlagId::PlayerNoResourceItemConsume);
        }
        if k == String::from_str("player_no_revival_consume") {
            return Ok(FlagId::PlayerNoRevivalConsume);
        }
        if k == String::from_str("player_hide") {
            return Ok(FlagId::PlayerHide);
        }
        if k == String::from_str("player_silence") {
            return Ok(FlagId::PlayerSilence);
        }
        if k == String::from_str("player_no_dead") {
            return Ok(FlagId::PlayerNoDead);
        }
        if k == String::from_str("player_exterminate") {
            return Ok(FlagId::PlayerExterminate);
        }
        if k == String::from_str("player_exterminate_stamina") {
            return Ok(FlagId::PlayerExterminateStamina);
        }
        if k == String::from_str("all_no_dead") {
            return Ok(FlagId::AllNoDead);
        }
        if k == String::from_str("all_no_damage") {
            return Ok(FlagId::AllNoDamage);
        }
        if k == String::from_str("all_no_hit") {
            return Ok(FlagId::AllNoHit);
        }
        if k == String::from_str("all_no_attack") {
            return Ok(FlagId::AllNoAttack);
        }
        if k == String::from_str("all_no_move") {
            return Ok(FlagId::AllNoMove);
        }
        if k == String::from_str("all_no_update_ai") {
            return Ok(FlagId::AllNoUpdateAi);
        }
        if k == String::from_str("all_no_stamina_consume") {
            return Ok(FlagId::AllNoStaminaConsume);
        }
        let mut msg = String::from_str("\"");
        msg.append(key);
        msg.append("\" is not a valid flag specifier");
        Err(msg)
    }

    /// The label shown for this flag.
    pub fn label(&self) -> (r: &'static str)
        ensures
            r@ == label_of(*self),
    {
        match self {
            FlagId::RenderWorld => "Render World",
            FlagId::RenderObjects => "Render Objects",
            FlagId::RenderMobs => "Render Mobs",
            FlagId::RenderEffects => "Render Effects",
            FlagId::DebugRender0 => "Debug #0 (Low Col + Planes)",
            FlagId::DebugRender1 => "Debug #1 (High Col)",
            FlagId::DebugRender2 => "Debug #2 (Objects)",
            FlagId::DebugRender3 => "Debug #3 (Low Col?)",
            FlagId::DebugRender4 => "Debug #4 (Low Col?)",
            FlagId::DebugRender5 => "Debug #5 (Walls?)",
            FlagId::DebugRender6 => "Debug #6 (Wall Jump Col)",
            FlagId::DebugRender7 => "Debug #7 (Edge/Cliff Col)",
            FlagId::DebugShow => "Debug Show",
            FlagId::GrappleDebugPath => "Grapple Debug (Path)",
            FlagId::GrappleDebugCol => "Grapple Debug (Col)",
            FlagId::PlayerNoGoodsConsume => "No goods consume",
            FlagId::PlayerNoResourceItemConsume => "No resource consume",
            FlagId::PlayerNoRevivalConsume => "No revival consume",
            FlagId::PlayerHide => "Hide",
            FlagId::PlayerSilence => "Silence",
            FlagId::PlayerNoDead => "No Dead",
            FlagId::PlayerExterminate => "Exterminate",
            FlagId::PlayerExterminateStamina => "Exterminate Stamina",
            FlagId::AllNoDead => "All No Dead",
            FlagId::AllNoDamage => "All No Damage",
            FlagId::AllNoHit => "All No Hit",
            FlagId::AllNoAttack => "All No Attack",
            FlagId::AllNoMove => "All No Move",
            FlagId::AllNoUpdateAi => "All No Update AI",
            FlagId::AllNoStaminaConsume => "All No Stamina Consume",
        }
    }
}

impl Pointers {
    /// The flag that `id` names.
    pub fn flag(&self, id: FlagId) -> (r: &Bitflag)
        ensures
            r == match id {
                FlagId::RenderWorld => &self.render_world,
                FlagId::RenderObjects => &self.render_objects,
                FlagId::RenderMobs => &self.render_mobs,
                FlagId::RenderEffects => &self.render_effects,
                FlagId::DebugRender0 => &self.debug_render0,
                FlagId::DebugRender1 => &self.debug_render1,
                FlagId::DebugRender2 => &self.debug_render2,
                FlagId::DebugRender3 => &self.debug_render3,
                FlagId::DebugRender4 => &self.debug_render4,
                FlagId::DebugRender5 => &self.debug_render5,
                FlagId::DebugRender6 => &self.debug_render6,
                FlagId::DebugRender7 => &self.debug_render7,
                FlagId::DebugShow => &self.debug_show,
                FlagId::GrappleDebugPath => &self.grapple_debug_path,
                FlagId::GrappleDebugCol => &self.grapple_debug_col,
                FlagId::PlayerNoGoodsConsume => &self.player_no_goods_consume,
                FlagId::PlayerNoResourceItemConsume => &self.player_no_resource_item_consume,
                FlagId::PlayerNoRevivalConsume => &self.player_no_revival_consume,
                FlagId::PlayerHide => &self.player_hide,
                FlagId::PlayerSilence => &self.player_silence,
                FlagId::PlayerNoDead => &self.player_no_dead,
                FlagId::PlayerExterminate => &self.player_exterminate,
                FlagId::PlayerExterminateStamina => &self.player_exterminate_stamina,
                FlagId::AllNoDead => &self.all_no_dead,
                FlagId::AllNoDamage => &self.all_no_damage,
                FlagId::AllNoHit => &self.all_no_hit,
                FlagId::AllNoAttack => &self.all_no_attack,
                FlagId::AllNoMove => &self.all_no_move,
                FlagId::AllNoUpdateAi => &self.all_no_update_ai,
                FlagId::AllNoStaminaConsume => &self.all_no_stamina_consume,
            },
    {
        match id {
            FlagId::RenderWorld => &self.render_world,
            FlagId::RenderObjects => &self.render_objects,
            FlagId::RenderMobs => &self.render_mobs,
            FlagId::RenderEffects => &self.render_effects,
            FlagId::DebugRender0 => &self.debug_render0,
            FlagId::DebugRender1 => &self.debug_render1,
            FlagId::DebugRender2 => &self.debug_render2,
            FlagId::DebugRender3 => &self.debug_render3,
            FlagId::DebugRender4 => &self.debug_render4,
            FlagId::DebugRender5 => &self.debug_render5,
            FlagId::DebugRender6 => &self.debug_render6,
            FlagId::DebugRender7 => &self.debug_render7,
            FlagId::DebugShow => &self.debug_show,
            FlagId::GrappleDebugPath => &self.grapple_debug_path,
            FlagId::GrappleDebugCol => &self.grapple_debug_col,
            FlagId::PlayerNoGoodsConsume => &self.player_no_goods_consume,
            FlagId::PlayerNoResourceItemConsume => &self.player_no_resource_item_consume,
            FlagId::PlayerNoRevivalConsume => &self.player_no_revival_consume,
            FlagId::PlayerHide => &self.player_hide,
            FlagId::PlayerSilence => &self.player_silence,
            FlagId::PlayerNoDead => &self.player_no_dead,
            FlagId::PlayerExterminate => &self.player_exterminate,
            FlagId::PlayerExterminateStamina => &self.player_exterminate_stamina,
            FlagId::AllNoDead => &self.all_no_dead,
            FlagId::AllNoDamage => &self.all_no_damage,
            FlagId::AllNoHit => &self.all_no_hit,
            FlagId::AllNoAttack => &self.all_no_attack,
            FlagId::AllNoMove => &self.all_no_move,
            FlagId::AllNoUpdateAi => &self.all_no_update_ai,
            FlagId::AllNoStaminaConsume => &self.all_no_stamina_consume,
        }
    }
}

} // verus!
