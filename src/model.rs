//! What the remote service plays: tracks, playlists, albums, artists, shows and
//! episodes, as one closed type.
use vstd::prelude::*;
use vstd::string::*;

verus! {

/// What is playing: a title and who it is by.
pub struct Track {
    pub title: String,
    pub by: Vec<String>,
}

/// Names joined with `", "` between them.
pub open spec fn comma_joined(names: Seq<Seq<char>>) -> Seq<char>
    decreases names.len(),
{
    if names.len() == 0 {
        Seq::empty()
    } else if names.len() == 1 {
        names[0]
    } else {
        comma_joined(names.drop_last()) + ", "@ + names.last()
    }
}

pub open spec fn views(v: Seq<String>) -> Seq<Seq<char>> {
    v.map_values(|s: String| s@)
}

/// Join `names` with `", "` between them.
pub fn join_names(names: &Vec<String>) -> (r: String)
    ensures
        r@ == comma_joined(views(names@)),
{
    let mut r = String::new();
    let mut i: usize = 0;
    while i < names.len()
        invariant
            i <= names@.len(),
            r@ == comma_joined(views(names@.subrange(0, i as int))),
        decreases names@.len() - i,
    {
        proof {
            let next = names@.subrange(0, i + 1);
            assert(next.drop_last() == names@.subrange(0, i as int));
            assert(views(next).drop_last() =~= views(next.drop_last()));
        }
        if i > 0 {
            r.append(", ");
        }
        r.append(names[i].as_str());
        i = i + 1;
    }
    assert(names@.subrange(0, names@.len() as int) == names@);
    r
}

/// What a track is written as: its title in quotes and who it is by.
pub open spec fn by_line(title: Seq<char>, by: Seq<Seq<char>>) -> Seq<char> {
    "\""@ + title + "\" by "@ + comma_joined(by)
}

impl Track {
    /// `"<title>" by <names>`.
    pub fn describe(&self) -> (r: String)
        ensures
            r@ == by_line(self.title@, views(self.by@)),
    {
        let mut r = String::from_str("\"");
        r.append(self.title.as_str());
        r.append("\" by ");
        let names = join_names(&self.by);
        r.append(names.as_str());
        r
    }
}

/// Something that a search or the library can offer to play.
#[allow(inconsistent_fields)]
pub enum Playable {
    Track { name: String, artists: Vec<String>, id: Option<String> },
    Playlist { name: String, id: String },
    Album { name: String, artists: Vec<String>, id: Option<String> },
    Artist { name: String, id: String },
    Show { name: String, id: String },
    Episode { name: String, id: String },
}

/// What starting a playable asks the remote service for.
#[derive(PartialEq, Eq, Debug)]
pub enum PlayRequest {
    /// Play this track by its id.
    Track(String),
    /// Play this episode by its id.
    Episode(String),
    /// Play the playlist with this id as a context.
    Playlist(String),
    /// Play the album with this id as a context.
    Album(String),
    /// Play the artist with this id as a context.
    Artist(String),
    /// Play the show with this id as a context.
    Show(String),
}

/// Why a playable cannot be started.
#[derive(PartialEq, Eq, Structural, Clone, Copy, Debug)]
pub enum PlayError {
    /// The track has no id; it may be a local file.
    TrackWithoutId,
    /// The album has no id.
    AlbumWithoutId,
}

impl Playable {
    pub open spec fn label_of(&self) -> Seq<char> {
        match self {
            Playable::Track { name, artists, .. } => by_line(name@, views(artists@)),
            Playable::Album { name, artists, .. } => by_line(name@, views(artists@)),
            Playable::Playlist { name, .. } => name@,
            Playable::Artist { name, .. } => name@,
            Playable::Show { name, .. } => name@,
            Playable::Episode { name, .. } => name@,
        }
    }

    pub open spec fn kind_name(&self) -> Seq<char> {
        match self {
            Playable::Track { .. } => "Track"@,
            Playable::Playlist { .. } => "Playlist"@,
            Playable::Album { .. } => "Album"@,
            Playable::Artist { .. } => "Artist"@,
            Playable::Show { .. } => "Show"@,
            Playable::Episode { .. } => "Episode"@,
        }
    }

    /// How the item is shown: tracks and albums as `"<name>" by <artists>`,
    /// the others by name.
    pub fn to_display(&self) -> (r: String)
        ensures
            r@ == self.label_of(),
    {
        match self {
            Playable::Track { name, artists, .. } => {
                let mut r = String::from_str("\"");
                r.append(name.as_str());
                r.append("\" by ");
                let names = join_names(artists);
                r.append(names.as_str());
                r
            },
            Playable::Album { name, artists, .. } => {
                let mut r = String::from_str("\"");
                r.append(name.as_str());
                r.append("\" by ");
                let names = join_names(artists);
                r.append(names.as_str());
                r
            },
            Playable::Playlist { name, .. } => name.clone(),
            Playable::Artist { name, .. } => name.clone(),
            Playable::Show { name, .. } => name.clone(),
            Playable::Episode { name, .. } => name.clone(),
        }
    }

    /// The kind of item, capitalised.
    pub fn type_string(&self) -> (r: String)
        ensures
            r@ == self.kind_name(),
    {
        match self {
            Playable::Track { .. } => String::from_str("Track"),
            Playable::Playlist { .. } => String::from_str("Playlist"),
            Playable::Album { .. } => String::from_str("Album"),
            Playable::Artist { .. } => String::from_str("Artist"),
            Playable::Show { .. } => String::from_str("Show"),
            Playable::Episode { .. } => String::from_str("Episode"),
        }
    }

    /// How the item is listed for selection: `<display> [<kind>]`.
    pub fn describe(&self) -> (r: String)
        ensures
            r@ == self.label_of() + " ["@ + self.kind_name() + "]"@,
    {
        let mut r = self.to_display();
        r.append(" [");
        let k = self.type_string();
        r.append(k.as_str());
        r.append("]");
        r
    }

    pub open spec fn request_of(&self) -> Result<PlayRequest, PlayError> {
        match *self {
            Playable::Track { id, .. } => match id {
                Some(i) => Ok(PlayRequest::Track(i)),
                None => Err(PlayError::TrackWithoutId),
            },
            Playable::Album { id, .. } => match id {
                Some(i) => Ok(PlayRequest::Album(i)),
                None => Err(PlayError::AlbumWithoutId),
            },
            Playable::Playlist { id, .. } => Ok(PlayRequest::Playlist(id)),
            Playable::Artist { id, .. } => Ok(PlayRequest::Artist(id)),
            Playable::Show { id, .. } => Ok(PlayRequest::Show(id)),
            Playable::Episode { id, .. } => Ok(PlayRequest::Episode(id)),
        }
    }

    /// What starting the item asks for: tracks and episodes by their id, the
    /// others as a context. A track or album without an id cannot be started.
    pub fn play_request(&self) -> (r: Result<PlayRequest, PlayError>)
        ensures
            r == self.request_of(),
    {
        match self {
            Playable::Track { id, .. } => match id {
                Some(i) => Ok(PlayRequest::Track(i.clone())),
                None => Err(PlayError::TrackWithoutId),
            },
            Playable::Album { id, .. } => match id {
                Some(i) => Ok(PlayRequest::Album(i.clone())),
                None => Err(PlayError::AlbumWithoutId),
            },
            Playable::Playlist { id, .. } => Ok(PlayRequest::Playlist(id.clone())),
            Playable::Artist { id, .. } => Ok(PlayRequest::Artist(id.clone())),
            Playable::Show { id, .. } => Ok(PlayRequest::Show(id.clone())),
            Playable::Episode { id, .. } => Ok(PlayRequest::Episode(id.clone())),
        }
    }
}

/// The item that the remote service reports as current.
pub enum NowPlaying {
    Track { name: String, artists: Vec<String> },
    Episode { name: String, show: String },
    /// Nothing, or an item of another kind.
    Other,
}

/// The track to report: nothing while playback is paused; for an episode, its
/// show stands as the one it is by.
pub fn current_track_of(is_playing: bool, item: NowPlaying) -> (r: Option<Track>)
    ensures
        !is_playing ==> r is None,
        is_playing ==> match item {
            NowPlaying::Track { name, artists } => r == Some(Track { title: name, by: artists }),
            NowPlaying::Episode { name, show } => r matches Some(t) && t.title == name
                && views(t.by@) == seq![show@],
            NowPlaying::Other => r is None,
        },
{
    if !is_playing {
        return None;
    }
    match item {
        NowPlaying::Track { name, artists } => Some(Track { title: name, by: artists }),
        NowPlaying::Episode { name, show } => {
            let mut by: Vec<String> = Vec::new();
            by.push(show);
            assert(views(by@) =~= seq![by@[0]@]);
            Some(Track { title: name, by })
        },
        NowPlaying::Other => None,
    }
}

} // verus!
