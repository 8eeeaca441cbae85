//! The client configuration and the identifier helpers that endpoint
//! wrappers use.
use vstd::prelude::*;

use crate::ids::{has_char, normalized_id, normalized_uri, split_fields};
use crate::senum::{kind_name, Type};

verus! {

/// The base URL that relative API paths are resolved against by default.
pub open spec fn default_prefix() -> Seq<char> {
    "https://api.spotify.com/v1/"@
}

/// `path` with `device_id=<id>` appended as a query parameter.
pub open spec fn with_device_id(path: Seq<char>, id: Seq<char>) -> Seq<char> {
    if path.contains('?') {
        path + "&device_id="@ + id
    } else {
        path + "?device_id="@ + id
    }
}

/// Application credentials handed to the token-management collaborator,
/// which exchanges them for bearer tokens.
#[derive(Clone, Debug)]
pub struct SpotifyClientCredentials {
    pub client_id: String,
    pub client_secret: String,
}

/// Why a client configuration was refused.
#[derive(Clone, Copy, Debug, PartialEq, Eq, Structural)]
pub enum BuildError {
    /// Neither a static access token nor a credentials manager was given.
    NoTokenSource,
}

/// Read-only configuration of a Spotify API client.
#[derive(Clone, Debug)]
pub struct Spotify {
    pub prefix: String,
    pub access_token: Option<String>,
    pub client_credentials_manager: Option<SpotifyClientCredentials>,
}

impl Spotify {
    /// Whether the configuration names a way to obtain a bearer token.
    pub open spec fn has_token_source(&self) -> bool {
        self.access_token is Some || self.client_credentials_manager is Some
    }

    /// A configuration with the default prefix and no token source yet.
    pub fn default() -> (r: Spotify)
        ensures
            r.prefix@ == default_prefix(),
            r.access_token is None,
            r.client_credentials_manager is None,
    {
        Spotify {
            prefix: "https://api.spotify.com/v1/".to_owned(),
            access_token: None,
            client_credentials_manager: None,
        }
    }

    /// Replaces the base URL prefix.
    pub fn prefix(self, prefix: &str) -> (r: Spotify)
        ensures
            r.prefix@ == prefix@,
            r.access_token == self.access_token,
            r.client_credentials_manager == self.client_credentials_manager,
    {
        Spotify { prefix: prefix.to_owned(), ..self }
    }

    /// Sets a static access token.
    pub fn access_token(self, access_token: &str) -> (r: Spotify)
        ensures
            r.prefix == self.prefix,
            r.access_token matches Some(t) && t@ == access_token@,
            r.client_credentials_manager == self.client_credentials_manager,
    {
        Spotify { access_token: Some(access_token.to_owned()), ..self }
    }

    /// Sets the credentials manager that supplies tokens when no static token is set.
    pub fn client_credentials_manager(
        self,
        client_credential_manager: SpotifyClientCredentials,
    ) -> (r: Spotify)
        ensures
            r.prefix == self.prefix,
            r.access_token == self.access_token,
            r.client_credentials_manager == Some(client_credential_manager),
    {
        Spotify { client_credentials_manager: Some(client_credential_manager), ..self }
    }

    /// Checks the configuration once, before any request is made: it is
    /// accepted, unchanged, exactly when it names a token source.
    pub fn build(self) -> (r: Result<Spotify, BuildError>)
        ensures
            self.has_token_source() ==> r == Ok::<Spotify, BuildError>(self),
            !self.has_token_source() ==> r == Err::<Spotify, BuildError>(BuildError::NoTokenSource),
    {
        if self.access_token.is_none() && self.client_credentials_manager.is_none() {
            Err(BuildError::NoTokenSource)
        } else {
            Ok(self)
        }
    }

    /// The bare ID that `id` denotes for resource type `kind`; see [`normalized_id`].
    pub fn get_id(&self, kind: Type, id: &str) -> (r: String)
        ensures
            r@ == normalized_id(kind, id@),
    {
        let name = kind.as_str().to_owned();
        let fields = split_fields(id, ':');
        let len = fields.len();
        if len >= 3 {
            assert(fields@.map_values(|f: String| f@)[len - 2] == fields@[len - 2]@);
            assert(fields@.map_values(|f: String| f@).last() == fields@[len - 1]@);
            if fields[len - 2] == name {
                return fields[len - 1].clone();
            }
            return id.to_owned();
        }
        let fields = split_fields(id, '/');
        let len = fields.len();
        if len >= 3 {
            assert(fields@.map_values(|f: String| f@)[len - 2] == fields@[len - 2]@);
            assert(fields@.map_values(|f: String| f@).last() == fields@[len - 1]@);
            if fields[len - 2] == name {
                return fields[len - 1].clone();
            }
        }
        id.to_owned()
    }

    /// The URI `spotify:<type>:<id>` for the ID that `id` denotes.
    pub fn get_uri(&self, kind: Type, id: &str) -> (r: String)
        ensures
            r@ == normalized_uri(kind, id@),
    {
        let mut uri = String::from_str("spotify:");
        uri.append(kind.as_str());
        uri.append(":");
        let bare = self.get_id(kind, id);
        uri.append(bare.as_str());
        uri
    }

    /// `path` with the device ID appended as a query parameter, when one is given.
    pub fn append_device_id(&self, path: &str, device_id: Option<String>) -> (r: String)
        ensures
            device_id is None ==> r@ == path@,
            device_id matches Some(id) ==> r@ == with_device_id(path@, id@),
    {
        let mut new_path = path.to_owned();
        if let Some(id) = device_id {
            if has_char(path, '?') {
                new_path.append("&device_id=");
            } else {
                new_path.append("?device_id=");
            }
            new_path.append(id.as_str());
        }
        new_path
    }
}

} // verus!
