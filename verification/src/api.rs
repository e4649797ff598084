//! What the calculator asks of the game data service and what it makes of
//! the answers.

pub mod requests;

use vstd::prelude::*;
use vstd::string::*;
use requests::{
    BadResponse,
    Character,
    CharacterBasic,
    CharacterBasicRequest,
    CharacterPropensity,
    CharacterPropensityRequest,
    CharacterRequest,
    Guild,
    GuildBasicInformation,
    GuildBasicInformationRequest,
    GuildRequest,
    GuildSkill,
};

verus! {

/// The name under which the service lists the guild skill that raises the
/// success chance.
pub const ENHANCE_MASTERY: &'static str = "강화의 달인";

/// The name under which the service lists the guild skill that saves a
/// failed attempt.
pub const UPGRADE_SALVATION: &'static str = "실패를 두려워 않는";

/// The three levels of a character that bear on the rates.
#[derive(Debug)]
pub struct ProbabilityContext {
    pub world_name: String,
    pub handicraft: u32,
    pub enhance_mastery: u32,
    pub upgrade_salvation: u32,
}

/// The level of the first skill of the list that goes by the name, or zero
/// where none does.
pub open spec fn skill_level_of(skills: Seq<GuildSkill>, skill_name: Seq<char>) -> u32
    decreases skills.len(),
{
    if skills.len() == 0 {
        0
    } else if skills.first().skill_name@ == skill_name {
        skills.first().skill_level
    } else {
        skill_level_of(skills.drop_first(), skill_name)
    }
}

/// Looks a skill up in the skills of a guild.
pub fn skill_level(skills: &Vec<GuildSkill>, skill_name: &str) -> (level: u32)
    ensures
        level == skill_level_of(skills@, skill_name@),
{
    let wanted = skill_name.to_owned();
    let mut i: usize = 0;
    assert(skills@.skip(0) =~= skills@);
    while i < skills.len()
        invariant
            i <= skills.len(),
            wanted@ == skill_name@,
            skill_level_of(skills@, skill_name@) == skill_level_of(
                skills@.skip(i as int),
                skill_name@,
            ),
        decreases skills.len() - i,
    {
        assert(skills@.skip(i as int).first() == skills@[i as int]);
        assert(skills@.skip(i as int).drop_first() =~= skills@.skip(i + 1));
        if skills[i].skill_name == wanted {
            return skills[i].skill_level;
        }
        i = i + 1;
    }
    assert(skills@.skip(skills.len() as int) =~= Seq::<GuildSkill>::empty());
    0
}

/// The request for the guild of a character, where it has one.
pub fn guild_request(basic: CharacterBasic) -> (request: Option<GuildRequest>)
    ensures
        request == match basic.character_guild_name {
            Some(guild_name) => Some(GuildRequest { guild_name, world_name: basic.world_name }),
            None => None::<GuildRequest>,
        },
{
    match basic.character_guild_name {
        Some(guild_name) => Some(GuildRequest { guild_name, world_name: basic.world_name }),
        None => None,
    }
}

/// How far the gathering of a character's levels has come.
#[derive(Debug)]
pub enum FetchState {
    /// The identifier of the character was asked for.
    AwaitingCharacter,
    /// The propensity levels were asked for.
    AwaitingPropensity { ocid: String },
    /// The basic record was asked for.
    AwaitingBasic { handicraft: u32 },
    /// The identifier of the guild was asked for.
    AwaitingGuild { handicraft: u32, world_name: String },
    /// The record of the guild was asked for.
    AwaitingGuildBasic { handicraft: u32, world_name: String },
    /// Nothing more is asked.
    Finished,
}

/// What to do next.
#[derive(Debug)]
pub enum FetchAction {
    AskCharacter(CharacterRequest),
    AskPropensity(CharacterPropensityRequest),
    AskBasic(CharacterBasicRequest),
    AskGuild(GuildRequest),
    AskGuildBasic(GuildBasicInformationRequest),
    /// The gathering is over, with the levels or with the error that ended
    /// it.
    Finish(Result<ProbabilityContext, BadResponse>),
}

/// What the service answered to the last request.
#[derive(Debug)]
pub enum FetchEvent {
    Character(Result<Character, BadResponse>),
    Propensity(Result<CharacterPropensity, BadResponse>),
    Basic(Result<CharacterBasic, BadResponse>),
    Guild(Result<Guild, BadResponse>),
    GuildBasic(Result<GuildBasicInformation, BadResponse>),
}

/// The answer is one to the request that the state waits for.
pub open spec fn expects(state: FetchState, event: FetchEvent) -> bool {
    match (state, event) {
        (FetchState::AwaitingCharacter, FetchEvent::Character(_)) => true,
        (FetchState::AwaitingPropensity { .. }, FetchEvent::Propensity(_)) => true,
        (FetchState::AwaitingBasic { .. }, FetchEvent::Basic(_)) => true,
        (FetchState::AwaitingGuild { .. }, FetchEvent::Guild(_)) => true,
        (FetchState::AwaitingGuildBasic { .. }, FetchEvent::GuildBasic(_)) => true,
        _ => false,
    }
}

/// The levels of a character without a guild: both guild skills at zero.
pub open spec fn without_guild(world_name: String, handicraft: u32) -> ProbabilityContext {
    ProbabilityContext { world_name, handicraft, enhance_mastery: 0, upgrade_salvation: 0 }
}

/// The levels of a character in a guild with the given skills.
pub open spec fn with_guild(
    world_name: String,
    handicraft: u32,
    skills: Seq<GuildSkill>,
) -> ProbabilityContext {
    ProbabilityContext {
        world_name,
        handicraft,
        enhance_mastery: skill_level_of(skills, ENHANCE_MASTERY@),
        upgrade_salvation: skill_level_of(skills, UPGRADE_SALVATION@),
    }
}

/// The state and the action that follow an answer. An error ends the
/// gathering at once. A character without a guild needs no further request.
pub open spec fn next(state: FetchState, event: FetchEvent) -> (FetchState, FetchAction) {
    match (state, event) {
        (FetchState::AwaitingCharacter, FetchEvent::Character(Ok(character))) => (
            FetchState::AwaitingPropensity { ocid: character.ocid },
            FetchAction::AskPropensity(CharacterPropensityRequest { ocid: character.ocid }),
        ),
        (FetchState::AwaitingCharacter, FetchEvent::Character(Err(error))) => (
            FetchState::Finished,
            FetchAction::Finish(Err(error)),
        ),
        (FetchState::AwaitingPropensity { ocid }, FetchEvent::Propensity(Ok(propensity))) => (
            FetchState::AwaitingBasic { handicraft: propensity.handicraft_level },
            FetchAction::AskBasic(CharacterBasicRequest { ocid }),
        ),
        (FetchState::AwaitingPropensity { ocid }, FetchEvent::Propensity(Err(error))) => (
            FetchState::Finished,
            FetchAction::Finish(Err(error)),
        ),
        (FetchState::AwaitingBasic { handicraft }, FetchEvent::Basic(Ok(basic))) => {
            match basic.character_guild_name {
                Some(guild_name) => (
                    FetchState::AwaitingGuild { handicraft, world_name: basic.world_name },
                    FetchAction::AskGuild(
                        GuildRequest { guild_name, world_name: basic.world_name },
                    ),
                ),
                None => (
                    FetchState::Finished,
                    FetchAction::Finish(Ok(without_guild(basic.world_name, handicraft))),
                ),
            }
        },
        (FetchState::AwaitingBasic { handicraft }, FetchEvent::Basic(Err(error))) => (
            FetchState::Finished,
            FetchAction::Finish(Err(error)),
        ),
        (FetchState::AwaitingGuild { handicraft, world_name }, FetchEvent::Guild(Ok(guild))) => (
            FetchState::AwaitingGuildBasic { handicraft, world_name },
            FetchAction::AskGuildBasic(GuildBasicInformationRequest { oguild_id: guild.oguild_id }),
        ),
        (FetchState::AwaitingGuild { handicraft, world_name }, FetchEvent::Guild(Err(error))) => (
            FetchState::Finished,
            FetchAction::Finish(Err(error)),
        ),
        (
            FetchState::AwaitingGuildBasic { handicraft, world_name },
            FetchEvent::GuildBasic(Ok(information)),
        ) => (
            FetchState::Finished,
            FetchAction::Finish(Ok(with_guild(world_name, handicraft, information.guild_skill@))),
        ),
        (
            FetchState::AwaitingGuildBasic { handicraft, world_name },
            FetchEvent::GuildBasic(Err(error)),
        ) => (FetchState::Finished, FetchAction::Finish(Err(error))),
        _ => (FetchState::Finished, FetchAction::Finish(Err(BadResponse::UnknownResponse))),
    }
}

/// Begins to gather the levels of a character: its identifier is asked for
/// first.
pub fn fetch_probability_context(character_name: String) -> (begun: (FetchState, FetchAction))
    ensures
        begun == (
            FetchState::AwaitingCharacter,
            FetchAction::AskCharacter(CharacterRequest { character_name }),
        ),
{
    (FetchState::AwaitingCharacter, FetchAction::AskCharacter(CharacterRequest { character_name }))
}

/// Whether the answer is one to the request that the state waits for.
pub fn is_expected(state: &FetchState, event: &FetchEvent) -> (expected: bool)
    ensures
        expected == expects(*state, *event),
{
    match (state, event) {
        (FetchState::AwaitingCharacter, FetchEvent::Character(_)) => true,
        (FetchState::AwaitingPropensity { .. }, FetchEvent::Propensity(_)) => true,
        (FetchState::AwaitingBasic { .. }, FetchEvent::Basic(_)) => true,
        (FetchState::AwaitingGuild { .. }, FetchEvent::Guild(_)) => true,
        (FetchState::AwaitingGuildBasic { .. }, FetchEvent::GuildBasic(_)) => true,
        _ => false,
    }
}

/// Takes the answer to the last request and says what follows.
pub fn advance(state: FetchState, event: FetchEvent) -> (step: (FetchState, FetchAction))
    requires
        expects(state, event),
    ensures
        step.0 == next(state, event).0,
        match (step.1, next(state, event).1) {
            (FetchAction::Finish(Ok(found)), FetchAction::Finish(Ok(levels))) => {
                &&& found.world_name@ == levels.world_name@
                &&& found.handicraft == levels.handicraft
                &&& found.enhance_mastery == levels.enhance_mastery
                &&& found.upgrade_salvation == levels.upgrade_salvation
            },
            (action, expected) => action == expected,
        },
{
    match (state, event) {
        (FetchState::AwaitingCharacter, FetchEvent::Character(Ok(character))) => {
            let ocid = character.ocid;
            (
                FetchState::AwaitingPropensity { ocid: ocid.clone() },
                FetchAction::AskPropensity(CharacterPropensityRequest { ocid }),
            )
        },
        (FetchState::AwaitingPropensity { ocid }, FetchEvent::Propensity(Ok(propensity))) => (
            FetchState::AwaitingBasic { handicraft: propensity.handicraft_level },
            FetchAction::AskBasic(CharacterBasicRequest { ocid }),
        ),
        (FetchState::AwaitingBasic { handicraft }, FetchEvent::Basic(Ok(basic))) => {
            let world_name = basic.world_name;
            match basic.character_guild_name {
                Some(guild_name) => (
                    FetchState::AwaitingGuild { handicraft, world_name: world_name.clone() },
                    FetchAction::AskGuild(GuildRequest { guild_name, world_name }),
                ),
                None => (
                    FetchState::Finished,
                    FetchAction::Finish(
                        Ok(
                            ProbabilityContext {
                                world_name,
                                handicraft,
                                enhance_mastery: 0,
                                upgrade_salvation: 0,
                            },
                        ),
                    ),
                ),
            }
        },
        (FetchState::AwaitingGuild { handicraft, world_name }, FetchEvent::Guild(Ok(guild))) => (
            FetchState::AwaitingGuildBasic { handicraft, world_name },
            FetchAction::AskGuildBasic(GuildBasicInformationRequest { oguild_id: guild.oguild_id }),
        ),
        (
            FetchState::AwaitingGuildBasic { handicraft, world_name },
            FetchEvent::GuildBasic(Ok(information)),
        ) => {
            let enhance_mastery = skill_level(&information.guild_skill, ENHANCE_MASTERY);
            let upgrade_salvation = skill_level(&information.guild_skill, UPGRADE_SALVATION);
            (
                FetchState::Finished,
                FetchAction::Finish(
                    Ok(
                        ProbabilityContext {
                            world_name,
                            handicraft,
                            enhance_mastery,
                            upgrade_salvation,
                        },
                    ),
                ),
            )
        },
        (_, FetchEvent::Character(Err(error))) => (
            FetchState::Finished,
            FetchAction::Finish(Err(error)),
        ),
        (_, FetchEvent::Propensity(Err(error))) => (
            FetchState::Finished,
            FetchAction::Finish(Err(error)),
        ),
        (_, FetchEvent::Basic(Err(error))) => (
            FetchState::Finished,
            FetchAction::Finish(Err(error)),
        ),
        (_, FetchEvent::Guild(Err(error))) => (
            FetchState::Finished,
            FetchAction::Finish(Err(error)),
        ),
        (_, FetchEvent::GuildBasic(Err(error))) => (
            FetchState::Finished,
            FetchAction::Finish(Err(error)),
        ),
        _ => (FetchState::Finished, FetchAction::Finish(Err(BadResponse::UnknownResponse))),
    }
}

} // verus!
