//! The records that the API's answers are read into.

use vstd::prelude::*;

verus! {

/// A music artist.
#[derive(Debug, Clone)]
pub struct Artist {
    pub id: u64,
    pub name: String,
}

/// An album.
#[derive(Debug, Clone)]
pub struct Album {
    pub id: u64,
    pub name: String,
    /// The URL of the cover image.
    pub pic_url: Option<String>,
}

/// A track.
#[derive(Debug, Clone)]
pub struct Track {
    pub id: u64,
    pub name: String,
    pub artists: Vec<Artist>,
    pub album: Album,
    /// The duration in milliseconds.
    pub duration_ms: u64,
}

/// What a playlist says of its creator.
#[derive(Debug, Clone)]
pub struct UserBrief {
    pub id: u64,
    pub name: String,
}

/// A playlist.
#[derive(Debug, Clone)]
pub struct Playlist {
    pub id: u64,
    pub name: String,
    pub description: Option<String>,
    pub cover_url: Option<String>,
    pub track_count: u64,
    pub creator: Option<UserBrief>,
    /// The tracks, where the answer lists them.
    pub tracks: Option<Vec<Track>>,
}

/// The profile of the user who is logged in.
#[derive(Debug, Clone)]
pub struct UserProfile {
    pub id: u64,
    pub nickname: String,
    pub avatar_url: Option<String>,
}

/// The lyrics of a track, in LRC format.
#[derive(Debug, Clone)]
pub struct Lyric {
    /// The lyrics in the song's own language.
    pub lrc: Option<String>,
    /// The lyrics in another language.
    pub tlyric: Option<String>,
}

/// One page of search results. Of the four lists, the one that the search
/// type asks for is there.
#[derive(Debug, Clone)]
pub struct SearchResult {
    /// How many results the server has in all.
    pub total: u64,
    pub offset: u64,
    pub limit: u64,
    pub tracks: Option<Vec<Track>>,
    pub albums: Option<Vec<Album>>,
    pub playlists: Option<Vec<Playlist>>,
    pub artists: Option<Vec<Artist>>,
}

/// What a search looks for.
#[derive(Debug, Clone, Copy, PartialEq, Eq, Structural)]
pub enum SearchType {
    Track,
    Album,
    Artist,
    Playlist,
}

impl SearchType {
    /// The number that stands for the type in a request: 1, 10, 100 or 1000.
    pub open spec fn spec_code(self) -> u64 {
        match self {
            SearchType::Track => 1,
            SearchType::Album => 10,
            SearchType::Artist => 100,
            SearchType::Playlist => 1000,
        }
    }

    /// The number that stands for the type in a request.
    #[verifier::when_used_as_spec(spec_code)]
    pub fn code(self) -> (n: u64)
        ensures
            n == self.spec_code(),
    {
        match self {
            SearchType::Track => 1,
            SearchType::Album => 10,
            SearchType::Artist => 100,
            SearchType::Playlist => 1000,
        }
    }
}

/// The audio quality that a playback URL is asked for.
#[derive(Debug, Clone, Copy, PartialEq, Eq, Structural)]
pub enum Quality {
    /// 128 kbps.
    Standard,
    /// 192 kbps.
    Higher,
    /// 320 kbps.
    Exhigh,
    /// Lossless; 999 000 stands for it.
    Lossless,
}

impl Quality {
    /// The bitrate that a request names for the quality.
    pub open spec fn spec_bitrate(self) -> u64 {
        match self {
            Quality::Standard => 128_000,
            Quality::Higher => 192_000,
            Quality::Exhigh => 320_000,
            Quality::Lossless => 999_000,
        }
    }

    /// The bitrate that a request names for the quality.
    #[verifier::when_used_as_spec(spec_bitrate)]
    pub fn bitrate(self) -> (n: u64)
        ensures
            n == self.spec_bitrate(),
    {
        match self {
            Quality::Standard => 128_000,
            Quality::Higher => 192_000,
            Quality::Exhigh => 320_000,
            Quality::Lossless => 999_000,
        }
    }
}

/// The mathematical value of an [`Artist`].
pub struct ArtistView {
    pub id: u64,
    pub name: Seq<char>,
}

/// The mathematical value of an [`Album`].
pub struct AlbumView {
    pub id: u64,
    pub name: Seq<char>,
    pub pic_url: Option<Seq<char>>,
}

/// The mathematical value of a [`Track`].
pub struct TrackView {
    pub id: u64,
    pub name: Seq<char>,
    pub artists: Seq<ArtistView>,
    pub album: AlbumView,
    pub duration_ms: u64,
}

/// The mathematical value of a [`UserBrief`].
pub struct UserBriefView {
    pub id: u64,
    pub name: Seq<char>,
}

/// The mathematical value of a [`Playlist`].
pub struct PlaylistView {
    pub id: u64,
    pub name: Seq<char>,
    pub description: Option<Seq<char>>,
    pub cover_url: Option<Seq<char>>,
    pub track_count: u64,
    pub creator: Option<UserBriefView>,
    pub tracks: Option<Seq<TrackView>>,
}

/// The mathematical value of a [`UserProfile`].
pub struct UserProfileView {
    pub id: u64,
    pub nickname: Seq<char>,
    pub avatar_url: Option<Seq<char>>,
}

/// The mathematical value of a [`Lyric`].
pub struct LyricView {
    pub lrc: Option<Seq<char>>,
    pub tlyric: Option<Seq<char>>,
}

/// The mathematical value of a [`SearchResult`].
pub struct SearchResultView {
    pub total: u64,
    pub offset: u64,
    pub limit: u64,
    pub tracks: Option<Seq<TrackView>>,
    pub albums: Option<Seq<AlbumView>>,
    pub playlists: Option<Seq<PlaylistView>>,
    pub artists: Option<Seq<ArtistView>>,
}

/// The text of an optional string.
pub open spec fn text_view(text: Option<String>) -> Option<Seq<char>> {
    match text {
        Some(s) => Some(s@),
        None => None,
    }
}

/// The values of a list of artists.
pub open spec fn artist_views(artists: Seq<Artist>) -> Seq<ArtistView> {
    Seq::new(artists.len(), |i: int| artists[i]@)
}

/// The values of a list of albums.
pub open spec fn album_views(albums: Seq<Album>) -> Seq<AlbumView> {
    Seq::new(albums.len(), |i: int| albums[i]@)
}

/// The values of a list of tracks.
pub open spec fn track_views(tracks: Seq<Track>) -> Seq<TrackView> {
    Seq::new(tracks.len(), |i: int| tracks[i]@)
}

/// The values of a list of playlists.
pub open spec fn playlist_views(playlists: Seq<Playlist>) -> Seq<PlaylistView> {
    Seq::new(playlists.len(), |i: int| playlists[i]@)
}

impl View for Artist {
    type V = ArtistView;

    open spec fn view(&self) -> ArtistView {
        ArtistView { id: self.id, name: self.name@ }
    }
}

impl View for Album {
    type V = AlbumView;

    open spec fn view(&self) -> AlbumView {
        AlbumView { id: self.id, name: self.name@, pic_url: text_view(self.pic_url) }
    }
}

impl View for Track {
    type V = TrackView;

    open spec fn view(&self) -> TrackView {
        TrackView {
            id: self.id,
            name: self.name@,
            artists: artist_views(self.artists@),
            album: self.album@,
            duration_ms: self.duration_ms,
        }
    }
}

impl View for UserBrief {
    type V = UserBriefView;

    open spec fn view(&self) -> UserBriefView {
        UserBriefView { id: self.id, name: self.name@ }
    }
}

impl View for Playlist {
    type V = PlaylistView;

    open spec fn view(&self) -> PlaylistView {
        PlaylistView {
            id: self.id,
            name: self.name@,
            description: text_view(self.description),
            cover_url: text_view(self.cover_url),
            track_count: self.track_count,
            creator: match self.creator {
                Some(c) => Some(c@),
                None => None,
            },
            tracks: match self.tracks {
                Some(t) => Some(track_views(t@)),
                None => None,
            },
        }
    }
}

impl View for UserProfile {
    type V = UserProfileView;

    open spec fn view(&self) -> UserProfileView {
        UserProfileView {
            id: self.id,
            nickname: self.nickname@,
            avatar_url: text_view(self.avatar_url),
        }
    }
}

impl View for Lyric {
    type V = LyricView;

    open spec fn view(&self) -> LyricView {
        LyricView { lrc: text_view(self.lrc), tlyric: text_view(self.tlyric) }
    }
}

impl View for SearchResult {
    type V = SearchResultView;

    open spec fn view(&self) -> SearchResultView {
        SearchResultView {
            total: self.total,
            offset: self.offset,
            limit: self.limit,
            tracks: match self.tracks {
                Some(t) => Some(track_views(t@)),
                None => None,
            },
            albums: match self.albums {
                Some(a) => Some(album_views(a@)),
                None => None,
            },
            playlists: match self.playlists {
                Some(p) => Some(playlist_views(p@)),
                None => None,
            },
            artists: match self.artists {
                Some(a) => Some(artist_views(a@)),
                None => None,
            },
        }
    }
}

} // verus!
