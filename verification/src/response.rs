//! The response assembler: cuts a whole response into its sections, decodes
//! the entities of each, and hands every level its creator and its song.

use crate::de::{DeError, DeErrorModel};
use crate::model::creator::{creator_spec, Creator, CreatorModel};
use crate::model::level::{level_spec, Level, LevelModel, LinkedLevel, LinkedLevelModel, RawLevel, RawLevelModel};
use crate::model::song::{song_spec, NewgroundsSong, SongModel};
use crate::text::{chars_of, split, split_spec, views};
use std::borrow::Cow;
use vstd::prelude::*;

verus! {

/// Why a response could not be assembled.
#[derive(Clone, Copy, Debug, PartialEq, Eq)]
pub enum ResponseError<'a> {
    /// An entity of the response could not be decoded.
    De(DeError<'a>),
    /// The response was `-1`, the server's way of saying that it found
    /// nothing.
    NotFound,
    /// The response has too few sections, or no level where one is due.
    UnexpectedFormat,
}

/// A response error over character sequences.
pub enum ResponseErrorModel {
    De(DeErrorModel),
    NotFound,
    UnexpectedFormat,
}

impl<'a> View for ResponseError<'a> {
    type V = ResponseErrorModel;

    open spec fn view(&self) -> ResponseErrorModel {
        match self {
            ResponseError::De(e) => ResponseErrorModel::De(e@),
            ResponseError::NotFound => ResponseErrorModel::NotFound,
            ResponseError::UnexpectedFormat => ResponseErrorModel::UnexpectedFormat,
        }
    }
}

impl<'a> ResponseError<'a> {
    /// A one-line rendering for logs.
    pub fn message(&self) -> (m: &'static str)
        ensures
            m@ == match self {
                ResponseError::De(e) => match e {
                    DeError::TypeMismatch { .. } => "type mismatch"@,
                    DeError::UnexpectedFormat => "unexpected format"@,
                    DeError::UnknownRequiredKey => "unknown required key"@,
                },
                ResponseError::NotFound => "not found"@,
                ResponseError::UnexpectedFormat => "unexpected format"@,
            },
    {
        match self {
            ResponseError::De(e) => e.message(),
            ResponseError::NotFound => "not found",
            ResponseError::UnexpectedFormat => "unexpected format",
        }
    }
}

impl<'a> From<DeError<'a>> for ResponseError<'a> {
    fn from(err: DeError<'a>) -> (r: Self) {
        ResponseError::De(err)
    }
}

impl<'a> vstd::std_specs::convert::FromSpecImpl<DeError<'a>> for ResponseError<'a> {
    open spec fn obeys_from_spec() -> bool {
        true
    }

    open spec fn from_spec(err: DeError<'a>) -> Self {
        ResponseError::De(err)
    }
}

/// The body that stands for "nothing found".
pub open spec fn not_found_body() -> Seq<char> {
    seq!['-', '1']
}

/// The delimiter between the sections of a response.
pub open spec fn section_delimiter() -> Seq<char> {
    seq!['#']
}

/// The delimiter between the levels, and between the creators, of a section.
pub open spec fn fragment_delimiter() -> Seq<char> {
    seq!['|']
}

/// The delimiter between the songs of a section.
pub open spec fn song_list_delimiter() -> Seq<char> {
    seq!['~', ':', '~']
}

/// The models of a list of creators.
pub open spec fn creators_view(creators: Seq<Creator>) -> Seq<CreatorModel> {
    Seq::new(creators.len(), |i: int| creators[i]@)
}

/// The models of a list of songs.
pub open spec fn songs_view(songs: Seq<NewgroundsSong>) -> Seq<SongModel> {
    Seq::new(songs.len(), |i: int| songs[i]@)
}

/// The models of a list of levels.
pub open spec fn levels_view(levels: Seq<RawLevel>) -> Seq<RawLevelModel> {
    Seq::new(levels.len(), |i: int| levels[i]@)
}

/// The models of a list of linked levels.
pub open spec fn linked_view(levels: Seq<LinkedLevel>) -> Seq<LinkedLevelModel> {
    Seq::new(levels.len(), |i: int| levels[i]@)
}

/// The first creator at or after `from` whose user id is `user_id`.
pub open spec fn first_creator(creators: Seq<CreatorModel>, user_id: u64, from: int) -> Option<
    CreatorModel,
>
    decreases creators.len() - from,
{
    if from < 0 || from >= creators.len() {
        None
    } else if creators[from].user_id == user_id {
        Some(creators[from])
    } else {
        first_creator(creators, user_id, from + 1)
    }
}

/// The first song at or after `from` whose id is `song_id`.
pub open spec fn first_song(songs: Seq<SongModel>, song_id: u64, from: int) -> Option<SongModel>
    decreases songs.len() - from,
{
    if from < 0 || from >= songs.len() {
        None
    } else if songs[from].song_id == song_id {
        Some(songs[from])
    } else {
        first_song(songs, song_id, from + 1)
    }
}

/// A level with what its two references resolve to: the first creator with
/// the level's creator id, and, where the level names a song, the first
/// song with that id. A reference that nothing matches resolves to nothing.
pub open spec fn link_spec(level: RawLevelModel, creators: Seq<CreatorModel>, songs: Seq<SongModel>) -> LinkedLevelModel {
    LevelModel {
        level_id: level.level_id,
        name: level.name,
        creator: first_creator(creators, level.creator, 0),
        custom_song: match level.custom_song {
            Some(song_id) => first_song(songs, song_id, 0),
            None => None,
        },
    }
}

/// The creators of the first `n` fragments, or the first error among them.
pub open spec fn creators_each(fragments: Seq<Seq<char>>, n: int) -> Result<Seq<CreatorModel>, DeErrorModel>
    decreases n,
{
    if n <= 0 {
        Ok(Seq::empty())
    } else {
        match creators_each(fragments, n - 1) {
            Err(e) => Err(e),
            Ok(creators) => match creator_spec(fragments[n - 1]) {
                Ok(c) => Ok(creators.push(c)),
                Err(e) => Err(e),
            },
        }
    }
}

/// The songs of the first `n` fragments, or the first error among them.
pub open spec fn songs_each(fragments: Seq<Seq<char>>, n: int) -> Result<Seq<SongModel>, DeErrorModel>
    decreases n,
{
    if n <= 0 {
        Ok(Seq::empty())
    } else {
        match songs_each(fragments, n - 1) {
            Err(e) => Err(e),
            Ok(songs) => match song_spec(fragments[n - 1]) {
                Ok(s) => Ok(songs.push(s)),
                Err(e) => Err(e),
            },
        }
    }
}

/// The levels of the first `n` fragments, or the first error among them.
pub open spec fn levels_each(fragments: Seq<Seq<char>>, n: int) -> Result<Seq<RawLevelModel>, DeErrorModel>
    decreases n,
{
    if n <= 0 {
        Ok(Seq::empty())
    } else {
        match levels_each(fragments, n - 1) {
            Err(e) => Err(e),
            Ok(levels) => match level_spec(fragments[n - 1]) {
                Ok(l) => Ok(levels.push(l)),
                Err(e) => Err(e),
            },
        }
    }
}

/// The creators of a section: none where the section is empty, else one for
/// each fragment between `|`.
pub open spec fn creators_spec(section: Seq<char>) -> Result<Seq<CreatorModel>, DeErrorModel> {
    if section.len() == 0 {
        Ok(Seq::empty())
    } else {
        let fragments = split_spec(section, fragment_delimiter());
        creators_each(fragments, fragments.len() as int)
    }
}

/// The songs of a section: none where the section is empty, else one for
/// each fragment between `~:~`.
pub open spec fn songs_spec(section: Seq<char>) -> Result<Seq<SongModel>, DeErrorModel> {
    if section.len() == 0 {
        Ok(Seq::empty())
    } else {
        let fragments = split_spec(section, song_list_delimiter());
        songs_each(fragments, fragments.len() as int)
    }
}

/// The levels of a section: one for each fragment between `|`.
pub open spec fn levels_spec(section: Seq<char>) -> Result<Seq<RawLevelModel>, DeErrorModel> {
    let fragments = split_spec(section, fragment_delimiter());
    levels_each(fragments, fragments.len() as int)
}

/// The levels of a response, each with its creator and its song.
pub open spec fn level_list_spec(response: Seq<char>) -> Result<Seq<LinkedLevelModel>, ResponseErrorModel> {
    let sections = split_spec(response, section_delimiter());
    if response == not_found_body() {
        Err(ResponseErrorModel::NotFound)
    } else if sections.len() < 3 || sections[0].len() == 0 {
        Err(ResponseErrorModel::UnexpectedFormat)
    } else {
        match levels_spec(sections[0]) {
            Err(e) => Err(ResponseErrorModel::De(e)),
            Ok(levels) => match creators_spec(sections[1]) {
                Err(e) => Err(ResponseErrorModel::De(e)),
                Ok(creators) => match songs_spec(sections[2]) {
                    Err(e) => Err(ResponseErrorModel::De(e)),
                    Ok(songs) => Ok(
                        Seq::new(levels.len(), |i: int| link_spec(levels[i], creators, songs)),
                    ),
                },
            },
        }
    }
}

/// The one level of a response, its references left as ids.
pub open spec fn single_level_spec(response: Seq<char>) -> Result<RawLevelModel, ResponseErrorModel> {
    let sections = split_spec(response, section_delimiter());
    if response == not_found_body() {
        Err(ResponseErrorModel::NotFound)
    } else if sections[0].len() == 0 {
        Err(ResponseErrorModel::UnexpectedFormat)
    } else {
        match level_spec(sections[0]) {
            Err(e) => Err(ResponseErrorModel::De(e)),
            Ok(level) => Ok(level),
        }
    }
}

pub open spec fn creators_result_view(r: Result<Vec<Creator>, DeError>) -> Result<Seq<CreatorModel>, DeErrorModel> {
    match r {
        Ok(v) => Ok(creators_view(v@)),
        Err(e) => Err(e@),
    }
}

pub open spec fn songs_result_view(r: Result<Vec<NewgroundsSong>, DeError>) -> Result<Seq<SongModel>, DeErrorModel> {
    match r {
        Ok(v) => Ok(songs_view(v@)),
        Err(e) => Err(e@),
    }
}

pub open spec fn levels_result_view(r: Result<Vec<RawLevel>, DeError>) -> Result<Seq<RawLevelModel>, DeErrorModel> {
    match r {
        Ok(v) => Ok(levels_view(v@)),
        Err(e) => Err(e@),
    }
}

pub open spec fn level_list_result_view(r: Result<Vec<LinkedLevel>, ResponseError>) -> Result<
    Seq<LinkedLevelModel>,
    ResponseErrorModel,
> {
    match r {
        Ok(v) => Ok(linked_view(v@)),
        Err(e) => Err(e@),
    }
}

pub open spec fn single_level_result_view(r: Result<RawLevel, ResponseError>) -> Result<
    RawLevelModel,
    ResponseErrorModel,
> {
    match r {
        Ok(v) => Ok(v@),
        Err(e) => Err(e@),
    }
}

pub open spec fn creator_option_view(c: Option<Creator>) -> Option<CreatorModel> {
    match c {
        Some(c) => Some(c@),
        None => None,
    }
}

pub open spec fn song_option_view(s: Option<NewgroundsSong>) -> Option<SongModel> {
    match s {
        Some(s) => Some(s@),
        None => None,
    }
}

proof fn lemma_creators_error(fragments: Seq<Seq<char>>, i: int, n: int)
    requires
        0 <= i <= n,
        creators_each(fragments, i) is Err,
    ensures
        creators_each(fragments, n) == creators_each(fragments, i),
    decreases n - i,
{
    if i < n {
        lemma_creators_error(fragments, i, n - 1);
    }
}

proof fn lemma_songs_error(fragments: Seq<Seq<char>>, i: int, n: int)
    requires
        0 <= i <= n,
        songs_each(fragments, i) is Err,
    ensures
        songs_each(fragments, n) == songs_each(fragments, i),
    decreases n - i,
{
    if i < n {
        lemma_songs_error(fragments, i, n - 1);
    }
}

proof fn lemma_levels_error(fragments: Seq<Seq<char>>, i: int, n: int)
    requires
        0 <= i <= n,
        levels_each(fragments, i) is Err,
    ensures
        levels_each(fragments, n) == levels_each(fragments, i),
    decreases n - i,
{
    if i < n {
        lemma_levels_error(fragments, i, n - 1);
    }
}

/// Decodes the creators of a section.
pub fn parse_creators<'a>(section: &'a str) -> (r: Result<Vec<Creator<'a>>, DeError<'a>>)
    ensures
        creators_result_view(r) == creators_spec(section@),
{
    let mut creators: Vec<Creator<'a>> = Vec::new();
    assert(creators_view(creators@) =~= Seq::<CreatorModel>::empty());
    if section.is_empty() {
        return Ok(creators);
    }
    proof {
        reveal_strlit("|");
        assert("|"@ =~= fragment_delimiter());
    }
    let fragments = split(section, "|");
    let n: usize = fragments.len();
    let mut i: usize = 0;
    let ghost frags = views(fragments@);
    while i < n
        invariant
            n == fragments.len(),
            i <= n,
            frags == views(fragments@),
            section@.len() != 0,
            frags == split_spec(section@, fragment_delimiter()),
            creators_each(frags, i as int) == Ok::<Seq<CreatorModel>, DeErrorModel>(
                creators_view(creators@),
            ),
        decreases n - i,
    {
        match Creator::from_robtop_str(fragments[i]) {
            Ok(creator) => {
                let ghost before = creators@;
                creators.push(creator);
                assert(creators_view(creators@) =~= creators_view(before).push(creator@));
            },
            Err(e) => {
                proof {
                    lemma_creators_error(frags, i + 1, n as int);
                }
                return Err(e);
            },
        }
        i = i + 1;
    }
    Ok(creators)
}

/// Decodes the songs of a section.
pub fn parse_songs<'a>(section: &'a str) -> (r: Result<Vec<NewgroundsSong<'a>>, DeError<'a>>)
    ensures
        songs_result_view(r) == songs_spec(section@),
{
    let mut songs: Vec<NewgroundsSong<'a>> = Vec::new();
    assert(songs_view(songs@) =~= Seq::<SongModel>::empty());
    if section.is_empty() {
        return Ok(songs);
    }
    proof {
        reveal_strlit("~:~");
        assert("~:~"@ =~= song_list_delimiter());
    }
    let fragments = split(section, "~:~");
    let n: usize = fragments.len();
    let mut i: usize = 0;
    let ghost frags = views(fragments@);
    while i < n
        invariant
            n == fragments.len(),
            i <= n,
            frags == views(fragments@),
            section@.len() != 0,
            frags == split_spec(section@, song_list_delimiter()),
            songs_each(frags, i as int) == Ok::<Seq<SongModel>, DeErrorModel>(songs_view(songs@)),
        decreases n - i,
    {
        match NewgroundsSong::from_robtop_str(fragments[i]) {
            Ok(song) => {
                let ghost before = songs@;
                songs.push(song);
                assert(songs_view(songs@) =~= songs_view(before).push(song@));
            },
            Err(e) => {
                proof {
                    lemma_songs_error(frags, i + 1, n as int);
                }
                return Err(e);
            },
        }
        i = i + 1;
    }
    Ok(songs)
}

/// Decodes the levels of a section, one for each fragment.
pub fn parse_levels<'a>(section: &'a str) -> (r: Result<Vec<RawLevel<'a>>, DeError<'a>>)
    ensures
        levels_result_view(r) == levels_spec(section@),
        r matches Ok(levels) ==> levels@.len() == split_spec(section@, fragment_delimiter()).len(),
{
    let mut levels: Vec<RawLevel<'a>> = Vec::new();
    assert(levels_view(levels@) =~= Seq::<RawLevelModel>::empty());
    proof {
        reveal_strlit("|");
        assert("|"@ =~= fragment_delimiter());
    }
    let fragments = split(section, "|");
    let n: usize = fragments.len();
    let mut i: usize = 0;
    let ghost frags = views(fragments@);
    while i < n
        invariant
            n == fragments.len(),
            i <= n,
            levels@.len() == i,
            frags == views(fragments@),
            frags == split_spec(section@, fragment_delimiter()),
            levels_each(frags, i as int) == Ok::<Seq<RawLevelModel>, DeErrorModel>(levels_view(levels@)),
        decreases n - i,
    {
        match RawLevel::from_robtop_str(fragments[i]) {
            Ok(level) => {
                let ghost before = levels@;
                levels.push(level);
                assert(levels_view(levels@) =~= levels_view(before).push(level@));
            },
            Err(e) => {
                proof {
                    lemma_levels_error(frags, i + 1, n as int);
                }
                return Err(e);
            },
        }
        i = i + 1;
    }
    Ok(levels)
}

/// A copy of the first creator whose user id is `user_id`, if there is one.
pub fn find_creator<'a>(creators: &Vec<Creator<'a>>, user_id: u64) -> (r: Option<Creator<'a>>)
    ensures
        creator_option_view(r) == first_creator(creators_view(creators@), user_id, 0),
{
    let mut i: usize = 0;
    while i < creators.len()
        invariant
            i <= creators.len(),
            first_creator(creators_view(creators@), user_id, 0) == first_creator(
                creators_view(creators@),
                user_id,
                i as int,
            ),
        decreases creators.len() - i,
    {
        if creators[i].user_id == user_id {
            return Some(creators[i].clone());
        }
        i = i + 1;
    }
    None
}

/// A copy of the first song whose id is `song_id`, if there is one.
pub fn find_song<'a>(songs: &Vec<NewgroundsSong<'a>>, song_id: u64) -> (r: Option<NewgroundsSong<'a>>)
    ensures
        song_option_view(r) == first_song(songs_view(songs@), song_id, 0),
{
    let mut i: usize = 0;
    while i < songs.len()
        invariant
            i <= songs.len(),
            first_song(songs_view(songs@), song_id, 0) == first_song(songs_view(songs@), song_id, i as int),
        decreases songs.len() - i,
    {
        if songs[i].song_id == song_id {
            return Some(songs[i].clone());
        }
        i = i + 1;
    }
    None
}

/// Hands a level its creator and its song out of the two lists.
pub fn link<'a>(level: &RawLevel<'a>, creators: &Vec<Creator<'a>>, songs: &Vec<NewgroundsSong<'a>>) -> (r:
    LinkedLevel<'a>)
    ensures
        r@ == link_spec(level@, creators_view(creators@), songs_view(songs@)),
{
    let creator = find_creator(creators, level.creator);
    let custom_song = match level.custom_song {
        Some(song_id) => find_song(songs, song_id),
        None => None,
    };
    let name: Cow<'a, str> = match &level.name {
        Cow::Borrowed(b) => Cow::Borrowed(*b),
        Cow::Owned(o) => Cow::Owned(o.clone()),
    };
    Level { level_id: level.level_id, name, creator, custom_song }
}

/// Whether `response` is the body that stands for "nothing found".
pub fn is_not_found(response: &str) -> (b: bool)
    ensures
        b == (response@ == not_found_body()),
{
    let chars = chars_of(response);
    if chars.len() == 2 && chars[0] == '-' && chars[1] == '1' {
        assert(chars@ =~= not_found_body());
        true
    } else {
        assert(not_found_body().len() == 2 && not_found_body()[0] == '-' && not_found_body()[1] == '1');
        false
    }
}

/// Assembles a response that lists levels: decodes the levels of the first
/// section, the creators of the second and the songs of the third, and
/// hands each level its creator and its song. The levels come in the order
/// of the first section. Any failure ends the call; no part of a list is
/// returned.
pub fn parse_get_gj_levels_response<'a>(response: &'a str) -> (r: Result<Vec<LinkedLevel<'a>>, ResponseError<'a>>)
    ensures
        level_list_result_view(r) == level_list_spec(response@),
        response@ == not_found_body() ==> r == Err::<Vec<LinkedLevel<'a>>, ResponseError<'a>>(
            ResponseError::NotFound,
        ),
        response@ != not_found_body() && split_spec(response@, section_delimiter()).len() < 3 ==> r
            == Err::<Vec<LinkedLevel<'a>>, ResponseError<'a>>(ResponseError::UnexpectedFormat),
        r matches Ok(levels) ==> levels@.len() == split_spec(
            split_spec(response@, section_delimiter())[0],
            fragment_delimiter(),
        ).len(),
{
    if is_not_found(response) {
        return Err(ResponseError::NotFound);
    }
    proof {
        reveal_strlit("#");
        assert("#"@ =~= section_delimiter());
    }
    let sections = split(response, "#");
    if sections.len() < 3 {
        return Err(ResponseError::UnexpectedFormat);
    }
    if sections[0].is_empty() {
        return Err(ResponseError::UnexpectedFormat);
    }
    let levels = match parse_levels(sections[0]) {
        Ok(levels) => levels,
        Err(e) => { return Err(ResponseError::De(e)); },
    };
    let creators = match parse_creators(sections[1]) {
        Ok(creators) => creators,
        Err(e) => { return Err(ResponseError::De(e)); },
    };
    let songs = match parse_songs(sections[2]) {
        Ok(songs) => songs,
        Err(e) => { return Err(ResponseError::De(e)); },
    };
    let mut linked: Vec<LinkedLevel<'a>> = Vec::new();
    let mut i: usize = 0;
    while i < levels.len()
        invariant
            i <= levels.len(),
            linked@.len() == i,
            forall|k: int|
                0 <= k < i ==> (#[trigger] linked@[k])@ == link_spec(
                    levels@[k]@,
                    creators_view(creators@),
                    songs_view(songs@),
                ),
        decreases levels.len() - i,
    {
        let level = link(&levels[i], &creators, &songs);
        linked.push(level);
        i = i + 1;
    }
    assert(linked_view(linked@) =~= Seq::new(
        levels_view(levels@).len(),
        |i: int| link_spec(levels_view(levels@)[i], creators_view(creators@), songs_view(songs@)),
    ));
    Ok(linked)
}

/// Assembles a response that holds one level: decodes the first section as
/// a level and leaves its references as ids.
pub fn parse_download_gj_level_response<'a>(response: &'a str) -> (r: Result<RawLevel<'a>, ResponseError<'a>>)
    ensures
        single_level_result_view(r) == single_level_spec(response@),
        response@ == not_found_body() ==> r == Err::<RawLevel<'a>, ResponseError<'a>>(
            ResponseError::NotFound,
        ),
{
    if is_not_found(response) {
        return Err(ResponseError::NotFound);
    }
    proof {
        reveal_strlit("#");
        assert("#"@ =~= section_delimiter());
    }
    let sections = split(response, "#");
    if sections[0].is_empty() {
        return Err(ResponseError::UnexpectedFormat);
    }
    match RawLevel::from_robtop_str(sections[0]) {
        Ok(level) => Ok(level),
        Err(e) => Err(ResponseError::De(e)),
    }
}

proof fn lemma_first_creator_from(creators: Seq<CreatorModel>, user_id: u64, from: int, i: int)
    requires
        0 <= from <= i < creators.len(),
        creators[i].user_id == user_id,
        forall|j: int| from <= j < i ==> creators[j].user_id != user_id,
    ensures
        first_creator(creators, user_id, from) == Some(creators[i]),
    decreases i - from,
{
    if from < i {
        lemma_first_creator_from(creators, user_id, from + 1, i);
    }
}

proof fn lemma_no_creator_from(creators: Seq<CreatorModel>, user_id: u64, from: int)
    requires
        0 <= from,
        forall|j: int| from <= j < creators.len() ==> creators[j].user_id != user_id,
    ensures
        first_creator(creators, user_id, from) is None,
    decreases creators.len() - from,
{
    if from < creators.len() {
        lemma_no_creator_from(creators, user_id, from + 1);
    }
}

proof fn lemma_first_song_from(songs: Seq<SongModel>, song_id: u64, from: int, i: int)
    requires
        0 <= from <= i < songs.len(),
        songs[i].song_id == song_id,
        forall|j: int| from <= j < i ==> songs[j].song_id != song_id,
    ensures
        first_song(songs, song_id, from) == Some(songs[i]),
    decreases i - from,
{
    if from < i {
        lemma_first_song_from(songs, song_id, from + 1, i);
    }
}

proof fn lemma_no_song_from(songs: Seq<SongModel>, song_id: u64, from: int)
    requires
        0 <= from,
        forall|j: int| from <= j < songs.len() ==> songs[j].song_id != song_id,
    ensures
        first_song(songs, song_id, from) is None,
    decreases songs.len() - from,
{
    if from < songs.len() {
        lemma_no_song_from(songs, song_id, from + 1);
    }
}

/// Where exactly one creator has the user id that a level refers to, the
/// linked level holds that creator.
pub proof fn lemma_link_only_creator(
    level: RawLevelModel,
    creators: Seq<CreatorModel>,
    songs: Seq<SongModel>,
    i: int,
)
    requires
        0 <= i < creators.len(),
        creators[i].user_id == level.creator,
        forall|j: int| 0 <= j < creators.len() && j != i ==> creators[j].user_id != level.creator,
    ensures
        link_spec(level, creators, songs).creator == Some(creators[i]),
{
    lemma_first_creator_from(creators, level.creator, 0, i);
}

/// Where several creators share the user id that a level refers to, the
/// linked level holds the one that comes first in the list.
pub proof fn lemma_link_first_creator(
    level: RawLevelModel,
    creators: Seq<CreatorModel>,
    songs: Seq<SongModel>,
    i: int,
)
    requires
        0 <= i < creators.len(),
        creators[i].user_id == level.creator,
        forall|j: int| 0 <= j < i ==> creators[j].user_id != level.creator,
    ensures
        link_spec(level, creators, songs).creator == Some(creators[i]),
{
    lemma_first_creator_from(creators, level.creator, 0, i);
}

/// Where no creator has the user id that a level refers to, the linked
/// level holds no creator.
pub proof fn lemma_link_no_creator(level: RawLevelModel, creators: Seq<CreatorModel>, songs: Seq<SongModel>)
    requires
        forall|j: int| 0 <= j < creators.len() ==> creators[j].user_id != level.creator,
    ensures
        link_spec(level, creators, songs).creator is None,
{
    lemma_no_creator_from(creators, level.creator, 0);
}

/// Where a level names a song, the linked level holds the first song of
/// the list with that id.
pub proof fn lemma_link_first_song(
    level: RawLevelModel,
    creators: Seq<CreatorModel>,
    songs: Seq<SongModel>,
    i: int,
)
    requires
        0 <= i < songs.len(),
        level.custom_song == Some(songs[i].song_id),
        forall|j: int| 0 <= j < i ==> songs[j].song_id != songs[i].song_id,
    ensures
        link_spec(level, creators, songs).custom_song == Some(songs[i]),
{
    lemma_first_song_from(songs, songs[i].song_id, 0, i);
}

/// Where a level names no song, or a song that the list does not hold, the
/// linked level holds no song.
pub proof fn lemma_link_no_song(level: RawLevelModel, creators: Seq<CreatorModel>, songs: Seq<SongModel>)
    requires
        level.custom_song matches Some(song_id) ==> forall|j: int|
            0 <= j < songs.len() ==> songs[j].song_id != song_id,
    ensures
        link_spec(level, creators, songs).custom_song is None,
{
    if let Some(song_id) = level.custom_song {
        lemma_no_song_from(songs, song_id, 0);
    }
}

/// Linking changes nothing of a level but its two references.
pub proof fn lemma_link_keeps_level(level: RawLevelModel, creators: Seq<CreatorModel>, songs: Seq<SongModel>)
    ensures
        link_spec(level, creators, songs).level_id == level.level_id,
        link_spec(level, creators, songs).name == level.name,
{
}

} // verus!
