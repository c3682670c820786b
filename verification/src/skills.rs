//! The fixed table of skill names that orders every hiscores response.

use vstd::prelude::*;

verus! {

/// Number of skills the hiscores service reports, and so the number of
/// response lines that carry data.
pub const SKILL_COUNT: usize = 24;

/// The name of the skill at position `i` of the fixed table. The service
/// sends one line per skill, in exactly this order.
pub open spec fn skill_name_spec(i: int) -> Seq<char> {
    if i == 0 { "Overall"@ }
    else if i == 1 { "Attack"@ }
    else if i == 2 { "Defence"@ }
    else if i == 3 { "Strength"@ }
    else if i == 4 { "Hitpoints"@ }
    else if i == 5 { "Ranged"@ }
    else if i == 6 { "Prayer"@ }
    else if i == 7 { "Magic"@ }
    else if i == 8 { "Cooking"@ }
    else if i == 9 { "Woodcutting"@ }
    else if i == 10 { "Fletching"@ }
    else if i == 11 { "Fishing"@ }
    else if i == 12 { "Firemaking"@ }
    else if i == 13 { "Crafting"@ }
    else if i == 14 { "Smithing"@ }
    else if i == 15 { "Mining"@ }
    else if i == 16 { "Herblore"@ }
    else if i == 17 { "Agility"@ }
    else if i == 18 { "Thieving"@ }
    else if i == 19 { "Slayer"@ }
    else if i == 20 { "Farming"@ }
    else if i == 21 { "Runecrafting"@ }
    else if i == 22 { "Hunter"@ }
    else { "Construction"@ }
}

/// Two different table positions carry different skill names.
pub proof fn lemma_skill_names_distinct(i: int, j: int)
    requires
        0 <= i < SKILL_COUNT as int,
        0 <= j < SKILL_COUNT as int,
        i != j,
    ensures
        skill_name_spec(i) != skill_name_spec(j),
{
    reveal_strlit("Overall");
    reveal_strlit("Attack");
    reveal_strlit("Defence");
    reveal_strlit("Strength");
    reveal_strlit("Hitpoints");
    reveal_strlit("Ranged");
    reveal_strlit("Prayer");
    reveal_strlit("Magic");
    reveal_strlit("Cooking");
    reveal_strlit("Woodcutting");
    reveal_strlit("Fletching");
    reveal_strlit("Fishing");
    reveal_strlit("Firemaking");
    reveal_strlit("Crafting");
    reveal_strlit("Smithing");
    reveal_strlit("Mining");
    reveal_strlit("Herblore");
    reveal_strlit("Agility");
    reveal_strlit("Thieving");
    reveal_strlit("Slayer");
    reveal_strlit("Farming");
    reveal_strlit("Runecrafting");
    reveal_strlit("Hunter");
    reveal_strlit("Construction");
    assert(("Overall")@[0] == 'O');
    assert(("Overall")@[1] == 'v');
    assert(("Attack")@[0] == 'A');
    assert(("Attack")@[1] == 't');
    assert(("Defence")@[0] == 'D');
    assert(("Defence")@[1] == 'e');
    assert(("Strength")@[0] == 'S');
    assert(("Strength")@[1] == 't');
    assert(("Hitpoints")@[0] == 'H');
    assert(("Hitpoints")@[1] == 'i');
    assert(("Ranged")@[0] == 'R');
    assert(("Ranged")@[1] == 'a');
    assert(("Prayer")@[0] == 'P');
    assert(("Prayer")@[1] == 'r');
    assert(("Magic")@[0] == 'M');
    assert(("Magic")@[1] == 'a');
    assert(("Cooking")@[0] == 'C');
    assert(("Cooking")@[1] == 'o');
    assert(("Woodcutting")@[0] == 'W');
    assert(("Woodcutting")@[1] == 'o');
    assert(("Fletching")@[0] == 'F');
    assert(("Fletching")@[1] == 'l');
    assert(("Fishing")@[0] == 'F');
    assert(("Fishing")@[1] == 'i');
    assert(("Firemaking")@[0] == 'F');
    assert(("Firemaking")@[1] == 'i');
    assert(("Crafting")@[0] == 'C');
    assert(("Crafting")@[1] == 'r');
    assert(("Smithing")@[0] == 'S');
    assert(("Smithing")@[1] == 'm');
    assert(("Mining")@[0] == 'M');
    assert(("Mining")@[1] == 'i');
    assert(("Herblore")@[0] == 'H');
    assert(("Herblore")@[1] == 'e');
    assert(("Agility")@[0] == 'A');
    assert(("Agility")@[1] == 'g');
    assert(("Thieving")@[0] == 'T');
    assert(("Thieving")@[1] == 'h');
    assert(("Slayer")@[0] == 'S');
    assert(("Slayer")@[1] == 'l');
    assert(("Farming")@[0] == 'F');
    assert(("Farming")@[1] == 'a');
    assert(("Runecrafting")@[0] == 'R');
    assert(("Runecrafting")@[1] == 'u');
    assert(("Hunter")@[0] == 'H');
    assert(("Hunter")@[1] == 'u');
    assert(("Construction")@[0] == 'C');
    assert(("Construction")@[1] == 'o');
    assert(("Overall")@.len() == 7);
    assert(("Attack")@.len() == 6);
    assert(("Defence")@.len() == 7);
    assert(("Strength")@.len() == 8);
    assert(("Hitpoints")@.len() == 9);
    assert(("Ranged")@.len() == 6);
    assert(("Prayer")@.len() == 6);
    assert(("Magic")@.len() == 5);
    assert(("Cooking")@.len() == 7);
    assert(("Woodcutting")@.len() == 11);
    assert(("Fletching")@.len() == 9);
    assert(("Fishing")@.len() == 7);
    assert(("Firemaking")@.len() == 10);
    assert(("Crafting")@.len() == 8);
    assert(("Smithing")@.len() == 8);
    assert(("Mining")@.len() == 6);
    assert(("Herblore")@.len() == 8);
    assert(("Agility")@.len() == 7);
    assert(("Thieving")@.len() == 8);
    assert(("Slayer")@.len() == 6);
    assert(("Farming")@.len() == 7);
    assert(("Runecrafting")@.len() == 12);
    assert(("Hunter")@.len() == 6);
    assert(("Construction")@.len() == 12);
    assert(("Overall")@ != ("Defence")@);
    assert(("Overall")@ != ("Cooking")@);
    assert(("Overall")@ != ("Fishing")@);
    assert(("Overall")@ != ("Agility")@);
    assert(("Overall")@ != ("Farming")@);
    assert(("Attack")@ != ("Ranged")@);
    assert(("Attack")@ != ("Prayer")@);
    assert(("Attack")@ != ("Mining")@);
    assert(("Attack")@ != ("Slayer")@);
    assert(("Attack")@ != ("Hunter")@);
    assert(("Defence")@ != ("Cooking")@);
    assert(("Defence")@ != ("Fishing")@);
    assert(("Defence")@ != ("Agility")@);
    assert(("Defence")@ != ("Farming")@);
    assert(("Strength")@ != ("Crafting")@);
    assert(("Strength")@ != ("Smithing")@);
    assert(("Strength")@ != ("Herblore")@);
    assert(("Strength")@ != ("Thieving")@);
    assert(("Hitpoints")@ != ("Fletching")@);
    assert(("Ranged")@ != ("Prayer")@);
    assert(("Ranged")@ != ("Mining")@);
    assert(("Ranged")@ != ("Slayer")@);
    assert(("Ranged")@ != ("Hunter")@);
    assert(("Prayer")@ != ("Mining")@);
    assert(("Prayer")@ != ("Slayer")@);
    assert(("Prayer")@ != ("Hunter")@);
    assert(("Cooking")@ != ("Fishing")@);
    assert(("Cooking")@ != ("Agility")@);
    assert(("Cooking")@ != ("Farming")@);
    assert(("Fishing")@ != ("Agility")@);
    assert(("Fishing")@ != ("Farming")@);
    assert(("Crafting")@ != ("Smithing")@);
    assert(("Crafting")@ != ("Herblore")@);
    assert(("Crafting")@ != ("Thieving")@);
    assert(("Smithing")@ != ("Herblore")@);
    assert(("Smithing")@ != ("Thieving")@);
    assert(("Mining")@ != ("Slayer")@);
    assert(("Mining")@ != ("Hunter")@);
    assert(("Herblore")@ != ("Thieving")@);
    assert(("Agility")@ != ("Farming")@);
    assert(("Slayer")@ != ("Hunter")@);
    assert(("Runecrafting")@ != ("Construction")@);
}

/// Looks the skill name for table position `i` up.
pub fn skill_name(i: usize) -> (r: &'static str)
    requires
        i < SKILL_COUNT,
    ensures
        r@ == skill_name_spec(i as int),
{
    match i {
        0 => "Overall",
        1 => "Attack",
        2 => "Defence",
        3 => "Strength",
        4 => "Hitpoints",
        5 => "Ranged",
        6 => "Prayer",
        7 => "Magic",
        8 => "Cooking",
        9 => "Woodcutting",
        10 => "Fletching",
        11 => "Fishing",
        12 => "Firemaking",
        13 => "Crafting",
        14 => "Smithing",
        15 => "Mining",
        16 => "Herblore",
        17 => "Agility",
        18 => "Thieving",
        19 => "Slayer",
        20 => "Farming",
        21 => "Runecrafting",
        22 => "Hunter",
        _ => "Construction",
    }
}

} // verus!
