use vstd::prelude::*;
use vstd::string::{StrSliceExecFns, StringExecFns};

verus! {

/// The credential placeholder that stands for "no key configured".
pub open spec fn demo_key() -> Seq<char> {
    seq!['D', 'E', 'M', 'O', '_', 'K', 'E', 'Y']
}

/// The name of the mode setting that forces demonstration data.
pub open spec fn mock_mode_name() -> Seq<char> {
    seq!['m', 'o', 'c', 'k']
}

/// No usable credential: none at all, or the placeholder.
pub open spec fn credential_missing(api_key: Seq<char>) -> bool {
    api_key.len() == 0 || api_key == demo_key()
}

/// Demonstration data stands in for every remote call: the mode setting asks for
/// it, or no usable credential is configured.
pub open spec fn demo_mode(api_mode: Seq<char>, api_key: Seq<char>) -> bool {
    api_mode == mock_mode_name() || credential_missing(api_key)
}

/// Whether two texts hold the same characters.
pub fn same_text(a: &str, b: &str) -> (r: bool)
    ensures
        r == (a@ == b@),
{
    let n = a.unicode_len();
    if n != b.unicode_len() {
        return false;
    }
    let mut i: usize = 0;
    while i < n
        invariant
            n == a@.len(),
            n == b@.len(),
            i <= n,
            a@.subrange(0, i as int) == b@.subrange(0, i as int),
        decreases n - i,
    {
        if a.get_char(i) != b.get_char(i) {
            return false;
        }
        assert(a@.subrange(0, i + 1) =~= a@.subrange(0, i as int).push(a@[i as int]));
        assert(b@.subrange(0, i + 1) =~= b@.subrange(0, i as int).push(b@[i as int]));
        i = i + 1;
    }
    assert(a@ =~= a@.subrange(0, n as int));
    assert(b@ =~= b@.subrange(0, n as int));
    true
}

/// Whether no usable credential is configured (`api_key` is empty when none is set).
pub fn is_credential_missing(api_key: &str) -> (r: bool)
    ensures
        r == credential_missing(api_key@),
{
    proof {
        reveal_strlit("DEMO_KEY");
        assert("DEMO_KEY"@ =~= demo_key());
    }
    api_key.unicode_len() == 0 || same_text(api_key, "DEMO_KEY")
}

/// Whether demonstration data replaces every remote call, given the mode setting
/// and the credential (each empty when unset).
pub fn is_demo_mode(api_mode: &str, api_key: &str) -> (r: bool)
    ensures
        r == demo_mode(api_mode@, api_key@),
{
    proof {
        reveal_strlit("mock");
        assert("mock"@ =~= mock_mode_name());
    }
    same_text(api_mode, "mock") || is_credential_missing(api_key)
}

/// The text holds no `#`.
pub open spec fn hash_free(s: Seq<char>) -> bool {
    forall|i: int| 0 <= i < s.len() ==> #[trigger] s[i] != '#'
}

/// A Riot ID `"{game_name}#{tag_line}"`.
pub open spec fn riot_id(game_name: Seq<char>, tag_line: Seq<char>) -> Seq<char> {
    game_name + seq!['#'] + tag_line
}

/// Writes the Riot ID `"{game_name}#{tag_line}"`.
pub fn join_riot_id(game_name: &str, tag_line: &str) -> (r: String)
    ensures
        r@ == riot_id(game_name@, tag_line@),
{
    let mut s = String::from_str(game_name);
    s.append("#");
    proof {
        reveal_strlit("#");
    }
    s.append(tag_line);
    s
}

/// Splits a Riot ID `"GameName#TagLine"` at its first `#`; `None` when it has none.
pub fn parse_riot_id(summoner_name: &str) -> (r: Option<(String, String)>)
    ensures
        r is None <==> hash_free(summoner_name@),
        r matches Some((g, t)) ==> hash_free(g@) && summoner_name@ == riot_id(g@, t@),
{
    let n = summoner_name.unicode_len();
    let mut i: usize = 0;
    while i < n
        invariant
            n == summoner_name@.len(),
            i <= n,
            hash_free(summoner_name@.subrange(0, i as int)),
        decreases n - i,
    {
        if summoner_name.get_char(i) == '#' {
            let g = summoner_name.substring_char(0, i);
            let t = summoner_name.substring_char(i + 1, n);
            assert(summoner_name@ =~= riot_id(g@, t@));
            return Some((String::from_str(g), String::from_str(t)));
        }
        assert(summoner_name@.subrange(0, i + 1) =~= summoner_name@.subrange(0, i as int).push(
            summoner_name@[i as int],
        ));
        i = i + 1;
    }
    assert(summoner_name@ =~= summoner_name@.subrange(0, n as int));
    None
}

/// The player that the background poll follows, shared between the command
/// handlers and the poll loop.
#[derive(Debug)]
pub struct TrackedPlayer {
    pub name: Option<String>,
    pub region: Option<String>,
    pub puuid: Option<String>,
    pub in_game: bool,
}

impl Default for TrackedPlayer {
    /// No player tracked yet, not in game.
    fn default() -> (r: TrackedPlayer)
        ensures
            r.name is None,
            r.region is None,
            r.puuid is None,
            !r.in_game,
    {
        TrackedPlayer { name: None, region: None, puuid: None, in_game: false }
    }
}

/// The player id that stands for every player in demonstration mode.
pub open spec fn mock_puuid() -> Seq<char> {
    seq!['m', 'o', 'c', 'k', '_', 'p', 'u', 'u', 'i', 'd', '_', '1', '2', '3', '4', '5']
}

/// The player id used for every player in demonstration mode.
pub fn mock_puuid_value() -> (r: String)
    ensures
        r@ == mock_puuid(),
{
    proof {
        reveal_strlit("mock_puuid_12345");
        assert("mock_puuid_12345"@ =~= mock_puuid());
    }
    String::from_str("mock_puuid_12345")
}

impl TrackedPlayer {
    /// Replaces the tracked player as a whole: Riot ID, region and player id.
    /// Whether a game is running is left as it was.
    pub fn set_player(&mut self, game_name: &str, tag_line: &str, region: String, puuid: String)
        ensures
            final(self).name matches Some(n) && n@ == riot_id(game_name@, tag_line@),
            final(self).region == Some(region),
            final(self).puuid == Some(puuid),
            final(self).in_game == old(self).in_game,
    {
        self.name = Some(join_riot_id(game_name, tag_line));
        self.region = Some(region);
        self.puuid = Some(puuid);
    }

    /// Tracks a player in demonstration mode, with the player id that stands for
    /// every player there; no lookup is made.
    pub fn set_demo_player(&mut self, game_name: &str, tag_line: &str, region: String)
        ensures
            final(self).name matches Some(n) && n@ == riot_id(game_name@, tag_line@),
            final(self).region == Some(region),
            final(self).puuid matches Some(p) && p@ == mock_puuid(),
            final(self).in_game == old(self).in_game,
    {
        self.set_player(game_name, tag_line, region, mock_puuid_value());
    }

    /// The player id and region to poll, once both are known.
    pub fn poll_target(&self) -> (r: Option<(String, String)>)
        ensures
            r is Some <==> (self.puuid is Some && self.region is Some),
            r matches Some((p, g)) ==> self.puuid == Some(p) && self.region == Some(g),
    {
        match (&self.puuid, &self.region) {
            (Some(p), Some(g)) => Some((p.clone(), g.clone())),
            _ => None,
        }
    }
}

} // verus!
