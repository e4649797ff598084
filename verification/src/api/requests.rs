//! The requests to the game data service, the records it answers with and
//! the errors it reports.

use vstd::prelude::*;
use vstd::string::*;

verus! {

/// Where the game data service is reached.
pub const ORIGIN: &'static str = "https://nexon-open-api-proxy.psvm203.workers.dev";

/// Why a request brought no record.
#[derive(Clone, Copy, Debug, PartialEq, Eq, Structural)]
pub enum BadResponse {
    InternalServerError,
    Forbidden,
    InvalidIdentifier,
    InvalidParameter,
    InvalidApiKey,
    InvalidPath,
    TooManyRequests,
    DataNotReady,
    GameUnderMaintenance,
    ApiUnderMaintenance,
    UnknownResponse,
    ParameterSerializeError,
    ParseError,
    NetworkError,
}

impl BadResponse {
    /// The error that an error name of the service stands for. A name that
    /// the service does not document stands for `UnknownResponse`.
    pub open spec fn of_name(name: Seq<char>) -> BadResponse {
        if name == "OPENAPI00001"@ {
            BadResponse::InternalServerError
        } else if name == "OPENAPI00002"@ {
            BadResponse::Forbidden
        } else if name == "OPENAPI00003"@ {
            BadResponse::InvalidIdentifier
        } else if name == "OPENAPI00004"@ {
            BadResponse::InvalidParameter
        } else if name == "OPENAPI00005"@ {
            BadResponse::InvalidApiKey
        } else if name == "OPENAPI00006"@ {
            BadResponse::InvalidPath
        } else if name == "OPENAPI00007"@ {
            BadResponse::TooManyRequests
        } else if name == "OPENAPI00009"@ {
            BadResponse::DataNotReady
        } else if name == "OPENAPI00010"@ {
            BadResponse::GameUnderMaintenance
        } else if name == "OPENAPI00011"@ {
            BadResponse::ApiUnderMaintenance
        } else {
            BadResponse::UnknownResponse
        }
    }

    /// Reads the error that an error name of the service stands for.
    pub fn from_name(name: &str) -> (error: BadResponse)
        ensures
            error == Self::of_name(name@),
    {
        let name = name.to_owned();
        if name == String::from_str("OPENAPI00001") {
            BadResponse::InternalServerError
        } else if name == String::from_str("OPENAPI00002") {
            BadResponse::Forbidden
        } else if name == String::from_str("OPENAPI00003") {
            BadResponse::InvalidIdentifier
        } else if name == String::from_str("OPENAPI00004") {
            BadResponse::InvalidParameter
        } else if name == String::from_str("OPENAPI00005") {
            BadResponse::InvalidApiKey
        } else if name == String::from_str("OPENAPI00006") {
            BadResponse::InvalidPath
        } else if name == String::from_str("OPENAPI00007") {
            BadResponse::TooManyRequests
        } else if name == String::from_str("OPENAPI00009") {
            BadResponse::DataNotReady
        } else if name == String::from_str("OPENAPI00010") {
            BadResponse::GameUnderMaintenance
        } else if name == String::from_str("OPENAPI00011") {
            BadResponse::ApiUnderMaintenance
        } else {
            BadResponse::UnknownResponse
        }
    }
}

impl std::str::FromStr for BadResponse {
    type Err = std::convert::Infallible;

    fn from_str(s: &str) -> (error: Result<Self, Self::Err>)
        ensures
            error matches Ok(found) && found == Self::of_name(s@),
    {
        Ok(Self::from_name(s))
    }
}

/// The record that names a character.
#[derive(Debug)]
pub struct Character {
    pub ocid: String,
}

/// Asks for the identifier of a character.
#[derive(Debug)]
pub struct CharacterRequest {
    pub character_name: String,
}

/// The propensity levels of a character.
#[derive(Debug)]
pub struct CharacterPropensity {
    pub date: Option<String>,
    pub charisma_level: u32,
    pub sensibility_level: u32,
    pub insight_level: u32,
    pub willingness_level: u32,
    pub handicraft_level: u32,
    pub charm_level: u32,
}

/// Asks for the propensity levels of a character.
#[derive(Debug)]
pub struct CharacterPropensityRequest {
    pub ocid: String,
}

/// The basic record of a character.
#[derive(Debug)]
pub struct CharacterBasic {
    pub date: Option<String>,
    pub character_name: String,
    pub world_name: String,
    pub character_gender: String,
    pub character_class: String,
    pub character_class_level: String,
    pub character_level: u32,
    pub character_exp: u64,
    pub character_exp_rate: String,
    pub character_guild_name: Option<String>,
    pub character_image: String,
    pub character_date_create: String,
    pub access_flag: String,
    pub liberation_quest_clear: String,
}

/// Asks for the basic record of a character.
#[derive(Debug)]
pub struct CharacterBasicRequest {
    pub ocid: String,
}

/// The record that names a guild.
#[derive(Debug)]
pub struct Guild {
    pub oguild_id: String,
}

/// Asks for the identifier of a guild.
#[derive(Debug)]
pub struct GuildRequest {
    pub guild_name: String,
    pub world_name: String,
}

/// One skill of a guild.
#[derive(Debug)]
pub struct GuildSkill {
    pub skill_name: String,
    pub skill_description: String,
    pub skill_level: u32,
    pub skill_effect: String,
    pub skill_icon: String,
}

/// The basic record of a guild.
#[derive(Debug)]
pub struct GuildBasicInformation {
    pub date: Option<String>,
    pub world_name: String,
    pub guild_name: String,
    pub guild_level: u32,
    pub guild_fame: u32,
    pub guild_point: u32,
    pub guild_master_name: String,
    pub guild_member_count: u32,
    pub guild_member: Vec<String>,
    pub guild_skill: Vec<GuildSkill>,
    pub guild_noblesse_skill: Vec<GuildSkill>,
}

/// Asks for the basic record of a guild.
#[derive(Debug)]
pub struct GuildBasicInformationRequest {
    pub oguild_id: String,
}

/// The text of each name and value of a list of parameters.
pub open spec fn parameters_of(pairs: &Vec<(String, String)>) -> Seq<(Seq<char>, Seq<char>)> {
    Seq::new(pairs@.len(), |i: int| (pairs@[i].0@, pairs@[i].1@))
}

/// A request to the game data service.
pub trait ApiRequest {
    /// The path that the request is sent to.
    spec fn path() -> Seq<char>;

    /// The parameters of the request, each a name and a value, in the order
    /// in which they are sent.
    spec fn parameters(&self) -> Seq<(Seq<char>, Seq<char>)>;

    /// The path that the request is sent to.
    fn endpoint_path() -> (path: &'static str)
        ensures
            path@ == Self::path(),
    ;

    /// The parameters of the request.
    fn query(&self) -> (pairs: Vec<(String, String)>)
        ensures
            parameters_of(&pairs) == self.parameters(),
    ;
}

/// One parameter of a request.
fn parameter(name: &'static str, value: &String) -> (pair: (String, String))
    ensures
        pair.0@ == name@,
        pair.1@ == value@,
{
    (String::from_str(name), value.clone())
}

impl ApiRequest for CharacterRequest {
    open spec fn path() -> Seq<char> {
        "/maplestory/v1/id"@
    }

    open spec fn parameters(&self) -> Seq<(Seq<char>, Seq<char>)> {
        seq![("character_name"@, self.character_name@)]
    }

    fn endpoint_path() -> (path: &'static str) {
        "/maplestory/v1/id"
    }

    fn query(&self) -> (pairs: Vec<(String, String)>) {
        let mut pairs: Vec<(String, String)> = Vec::new();
        pairs.push(parameter("character_name", &self.character_name));
        assert(parameters_of(&pairs) =~= self.parameters());
        pairs
    }
}

impl ApiRequest for CharacterPropensityRequest {
    open spec fn path() -> Seq<char> {
        "/maplestory/v1/character/propensity"@
    }

    open spec fn parameters(&self) -> Seq<(Seq<char>, Seq<char>)> {
        seq![("ocid"@, self.ocid@)]
    }

    fn endpoint_path() -> (path: &'static str) {
        "/maplestory/v1/character/propensity"
    }

    fn query(&self) -> (pairs: Vec<(String, String)>) {
        let mut pairs: Vec<(String, String)> = Vec::new();
        pairs.push(parameter("ocid", &self.ocid));
        assert(parameters_of(&pairs) =~= self.parameters());
        pairs
    }
}

impl ApiRequest for CharacterBasicRequest {
    open spec fn path() -> Seq<char> {
        "/maplestory/v1/character/basic"@
    }

    open spec fn parameters(&self) -> Seq<(Seq<char>, Seq<char>)> {
        seq![("ocid"@, self.ocid@)]
    }

    fn endpoint_path() -> (path: &'static str) {
        "/maplestory/v1/character/basic"
    }

    fn query(&self) -> (pairs: Vec<(String, String)>) {
        let mut pairs: Vec<(String, String)> = Vec::new();
        pairs.push(parameter("ocid", &self.ocid));
        assert(parameters_of(&pairs) =~= self.parameters());
        pairs
    }
}

impl ApiRequest for GuildRequest {
    open spec fn path() -> Seq<char> {
        "/maplestory/v1/guild/id"@
    }

    open spec fn parameters(&self) -> Seq<(Seq<char>, Seq<char>)> {
        seq![("guild_name"@, self.guild_name@), ("world_name"@, self.world_name@)]
    }

    fn endpoint_path() -> (path: &'static str) {
        "/maplestory/v1/guild/id"
    }

    fn query(&self) -> (pairs: Vec<(String, String)>) {
        let mut pairs: Vec<(String, String)> = Vec::new();
        pairs.push(parameter("guild_name", &self.guild_name));
        pairs.push(parameter("world_name", &self.world_name));
        assert(parameters_of(&pairs) =~= self.parameters());
        pairs
    }
}

impl ApiRequest for GuildBasicInformationRequest {
    open spec fn path() -> Seq<char> {
        "/maplestory/v1/guild/basic"@
    }

    open spec fn parameters(&self) -> Seq<(Seq<char>, Seq<char>)> {
        seq![("oguild_id"@, self.oguild_id@)]
    }

    fn endpoint_path() -> (path: &'static str) {
        "/maplestory/v1/guild/basic"
    }

    fn query(&self) -> (pairs: Vec<(String, String)>) {
        let mut pairs: Vec<(String, String)> = Vec::new();
        pairs.push(parameter("oguild_id", &self.oguild_id));
        assert(parameters_of(&pairs) =~= self.parameters());
        pairs
    }
}

/// The error of `serde_urlencoded::to_string`. It is carried from the call
/// to the place where it becomes `ParameterSerializeError`, and never looked
/// into.
#[verifier::external_type_specification]
#[verifier::external_body]
pub struct ExUrlencodedError(serde_urlencoded::ser::Error);

/// The query string that `serde_urlencoded::to_string` writes for a list of
/// parameters, or nothing where it reports an error.
pub uninterp spec fn urlencoded(parameters: Seq<(Seq<char>, Seq<char>)>) -> Option<Seq<char>>;

/// Calls `serde_urlencoded::to_string` on the list of parameters. What it
/// returns depends on the names and values alone; the encoding itself is
/// taken on trust and known here only by its name, `urlencoded`.
#[verifier::external_body]
fn encode_query(pairs: &Vec<(String, String)>) -> (encoded: Result<
    String,
    serde_urlencoded::ser::Error,
>)
    ensures
        urlencoded(parameters_of(pairs)) == match encoded {
            Ok(text) => Some(text@),
            Err(_) => None::<Seq<char>>,
        },
{
    serde_urlencoded::to_string(pairs)
}

/// The address of a request: the origin, the path, a question mark and the
/// encoded parameters.
pub open spec fn url_of(path: Seq<char>, query: Seq<char>) -> Seq<char> {
    ORIGIN@ + path + "?"@ + query
}

/// Puts an address together from a path and an encoded query.
pub fn assemble_url(path: &str, query: &str) -> (url: String)
    ensures
        url@ == url_of(path@, query@),
{
    let mut url = String::from_str(ORIGIN);
    url.append(path);
    url.append("?");
    url.append(query);
    url
}

/// The address that a request is sent to, or `ParameterSerializeError`
/// where its parameters cannot be encoded.
pub fn request_url<R: ApiRequest>(request: &R) -> (url: Result<String, BadResponse>)
    ensures
        match urlencoded(request.parameters()) {
            Some(query) => url matches Ok(address) && address@ == url_of(R::path(), query),
            None => url == Err::<String, BadResponse>(BadResponse::ParameterSerializeError),
        },
{
    let pairs = request.query();
    match encode_query(&pairs) {
        Ok(query) => Ok(assemble_url(R::endpoint_path(), query.as_str())),
        Err(_) => Err(BadResponse::ParameterSerializeError),
    }
}

/// What to do once a request was sent.
#[derive(Clone, Copy, Debug, PartialEq, Eq, Structural)]
pub enum NextStep {
    /// Nothing came back: the request ends with the error.
    Fail(BadResponse),
    /// The service refused: its answer is read as an error report.
    ReadError,
    /// The service accepted: its answer is read as the record.
    ReadBody,
}

/// Decides what follows the sending of a request. `None` stands for a
/// request that could not be delivered, otherwise the flag says whether the
/// status of the answer is a success.
pub fn after_send(status_ok: Option<bool>) -> (step: NextStep)
    ensures
        step == match status_ok {
            None => NextStep::Fail(BadResponse::NetworkError),
            Some(false) => NextStep::ReadError,
            Some(true) => NextStep::ReadBody,
        },
{
    match status_ok {
        None => NextStep::Fail(BadResponse::NetworkError),
        Some(false) => NextStep::ReadError,
        Some(true) => NextStep::ReadBody,
    }
}

/// The error that a refusal stands for: the one its report names, or
/// `UnknownResponse` where the report could not be read.
pub fn parse_error_response(error_name: Option<&str>) -> (error: BadResponse)
    ensures
        error == match error_name {
            Some(name) => BadResponse::of_name(name@),
            None => BadResponse::UnknownResponse,
        },
{
    match error_name {
        Some(name) => BadResponse::from_name(name),
        None => BadResponse::UnknownResponse,
    }
}

/// The result of an accepted request: the record, or `ParseError` where the
/// answer could not be read as one.
pub fn parse_body<T>(body: Option<T>) -> (record: Result<T, BadResponse>)
    ensures
        record == match body {
            Some(value) => Ok::<T, BadResponse>(value),
            None => Err::<T, BadResponse>(BadResponse::ParseError),
        },
{
    match body {
        Some(value) => Ok(value),
        None => Err(BadResponse::ParseError),
    }
}

} // verus!
