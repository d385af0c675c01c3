use vstd::prelude::*;

verus! {

/// The level to load.
#[derive(Clone, Debug)]
pub struct CurrentLevel {
    pub path: String,
}

impl Default for CurrentLevel {
    /// The test level.
    fn default() -> (level: Self)
        ensures
            level.path@ == "levels/test-level.tmx"@,
    {
        CurrentLevel { path: String::from_str("levels/test-level.tmx") }
    }
}

/// `p` is a prefix of `s`.
pub open spec fn has_prefix(s: Seq<char>, p: Seq<char>) -> bool {
    p.len() <= s.len() && s.subrange(0, p.len() as int) == p
}

/// Whether two strings hold the same characters.
pub fn str_eq(a: &str, b: &str) -> (r: bool)
    ensures
        r == (a@ == b@),
{
    let n = a.unicode_len();
    if n != b.unicode_len() {
        return false;
    }
    let mut i: usize = 0;
    while i < n
        invariant
            n == a@.len(),
            n == b@.len(),
            i <= n,
            forall|j: int| 0 <= j < i ==> a@[j] == b@[j],
        decreases n - i,
    {
        if a.get_char(i) != b.get_char(i) {
            return false;
        }
        i = i + 1;
    }
    assert(a@ =~= b@);
    true
}

/// Whether `s` begins with `prefix`.
pub fn starts_with(s: &str, prefix: &str) -> (r: bool)
    ensures
        r == has_prefix(s@, prefix@),
{
    let n = prefix.unicode_len();
    if n > s.unicode_len() {
        return false;
    }
    let mut i: usize = 0;
    while i < n
        invariant
            n == prefix@.len(),
            n <= s@.len(),
            i <= n,
            forall|j: int| 0 <= j < i ==> s@[j] == prefix@[j],
        decreases n - i,
    {
        if s.get_char(i) != prefix.get_char(i) {
            assert(s@.subrange(0, n as int)[i as int] != prefix@[i as int]);
            return false;
        }
        i = i + 1;
    }
    assert(s@.subrange(0, n as int) =~= prefix@);
    true
}

/// The roles a named object of a level map can take.
#[derive(Clone, Copy, Debug, PartialEq, Eq, Hash, Structural)]
pub enum TiledObjectKind {
    /// Where the player appears.
    PlayerSpawn,
    /// The level's goal.
    Goal,
    /// A coin.
    Coin,
    /// A patrolling walker enemy.
    Walker,
}

/// The role of an object by its name: exactly "player_spawn" or "goal",
/// or a name beginning with "coin" or "enemy_walker"; other objects have
/// no role.
pub open spec fn spec_object_kind(name: Seq<char>) -> Option<TiledObjectKind> {
    if name == "player_spawn"@ {
        Some(TiledObjectKind::PlayerSpawn)
    } else if name == "goal"@ {
        Some(TiledObjectKind::Goal)
    } else if has_prefix(name, "coin"@) {
        Some(TiledObjectKind::Coin)
    } else if has_prefix(name, "enemy_walker"@) {
        Some(TiledObjectKind::Walker)
    } else {
        None
    }
}

/// Tells what a named map object stands for.
pub fn object_kind(name: &str) -> (kind: Option<TiledObjectKind>)
    ensures
        kind == spec_object_kind(name@),
{
    if str_eq(name, "player_spawn") {
        Some(TiledObjectKind::PlayerSpawn)
    } else if str_eq(name, "goal") {
        Some(TiledObjectKind::Goal)
    } else if starts_with(name, "coin") {
        Some(TiledObjectKind::Coin)
    } else if starts_with(name, "enemy_walker") {
        Some(TiledObjectKind::Walker)
    } else {
        None
    }
}

/// The spawn point and the goal are named exactly; every name beginning
/// with "enemy_walker" places a walker, however it goes on.
pub proof fn lemma_named_objects(rest: Seq<char>)
    ensures
        spec_object_kind("player_spawn"@) == Some(TiledObjectKind::PlayerSpawn),
        spec_object_kind("goal"@) == Some(TiledObjectKind::Goal),
        spec_object_kind("enemy_walker"@ + rest) == Some(TiledObjectKind::Walker),
        spec_object_kind(Seq::<char>::empty()) is None,
{
    reveal_strlit("coin");
    reveal_strlit("goal");
    reveal_strlit("player_spawn");
    reveal_strlit("enemy_walker");
    let name = "enemy_walker"@ + rest;
    assert(name.subrange(0, 12) =~= "enemy_walker"@);
    assert(name != "goal"@) by {
        assert(name[0] != "goal"@[0]);
    }
    assert(name != "player_spawn"@) by {
        assert(name[0] != "player_spawn"@[0]);
    }
    assert(!has_prefix(name, "coin"@)) by {
        assert(name[0] != "coin"@[0]);
    }
    let e = Seq::<char>::empty();
    assert(e.len() != "goal"@.len());
    assert(e.len() != "player_spawn"@.len());
    assert(!has_prefix(e, "coin"@));
    assert(!has_prefix(e, "enemy_walker"@));
}

/// Every object whose name begins with "coin" becomes a coin, however the
/// name goes on.
pub proof fn lemma_coin_prefix(rest: Seq<char>)
    ensures
        spec_object_kind("coin"@ + rest) == Some(TiledObjectKind::Coin),
{
    reveal_strlit("coin");
    reveal_strlit("goal");
    reveal_strlit("player_spawn");
    let name = "coin"@ + rest;
    assert(name.subrange(0, 4) =~= "coin"@);
    assert(name != "goal"@) by {
        assert(name[0] != "goal"@[0]);
    }
    assert(name != "player_spawn"@) by {
        assert(name[0] != "player_spawn"@[0]);
    }
}

} // verus!
