//! The client's entry point and the decisions it takes on answers.
use vstd::prelude::*;
use vstd::string::StringExecFns;
use crate::error::Error;
use crate::foreign::{parse_url, parsed_url, path_segments, segments_of, uuid_string, uuid_text};
use crate::payload::{Server, Servers};

verus! {

/// The address of the service's main API.
pub open spec fn default_base_url() -> Seq<char> {
    "https://api.gofile.io"@
}

/// The zone whose servers take uploads.
pub open spec fn upload_zone() -> Seq<char> {
    "eu"@
}

/// The address of the upload server named `name`.
pub open spec fn server_base_url(name: Seq<char>) -> Seq<char> {
    "https://"@ + name + ".gofile.io"@
}

/// The first server of the list that stands in the upload zone.
pub open spec fn first_upload_server(s: Seq<Server>) -> Option<Server>
    decreases s.len(),
{
    if s.len() == 0 {
        None
    } else if s[0].zone@ == upload_zone() {
        Some(s[0])
    } else {
        first_upload_server(s.drop_first())
    }
}

/// The address of the endpoint `path` under `base`.
pub open spec fn endpoint_text(base: Seq<char>, path: Seq<char>) -> Seq<char> {
    base + "/"@ + path
}

/// The status that an envelope carries on success.
pub open spec fn ok_status() -> Seq<char> {
    "ok"@
}

/// The path segments of a URL, as text.
pub open spec fn segments_view(segs: Option<Vec<String>>) -> Option<Seq<Seq<char>>> {
    match segs {
        Some(v) => Some(v@.map_values(|s: String| s@)),
        None => None,
    }
}

/// The code of a shared content whose URL has the given path segments: the
/// segment after a first segment "d". Otherwise the reason why there is none.
pub open spec fn content_code(segs: Option<Seq<Seq<char>>>) -> Result<Seq<char>, Seq<char>> {
    match segs {
        None => Err("The content url must have path segments like '/d/XXXX'."@),
        Some(s) => if s.len() == 0 || s[0] != "d"@ {
            Err("The first path segment of content url must be 'd'."@)
        } else if s.len() < 2 {
            Err("The content url must have two path segments like '/d/XXXX'."@)
        } else {
            Ok(s[1])
        },
    }
}

/// The main API of the service, reached at `base_url`.
#[derive(Debug)]
pub struct Api {
    pub base_url: String,
}

impl Default for Api {
    fn default() -> (r: Self)
        ensures
            r.base_url@ == default_base_url(),
    {
        Api { base_url: String::from_str("https://api.gofile.io") }
    }
}

/// An upload server of the service, and the tag that its uploads report
/// progress under.
#[derive(Clone, Debug)]
pub struct ServerApi {
    pub base_url: String,
    pub uuid: u128,
}

impl Api {
    /// The upload server to use among those the service offers: the first in
    /// the upload zone. None there is an error.
    pub fn select_server(servers: &Servers, uuid: u128) -> (r: Result<ServerApi, Error>)
        ensures
            match (r, first_upload_server(servers.servers@)) {
                (Ok(a), Some(s)) => a.base_url@ == server_base_url(s.name@) && a.uuid == uuid,
                (Err(Error::EmptyServerList), None) => true,
                _ => false,
            },
    {
        let s = &servers.servers;
        let zone = String::from_str("eu");
        let mut i: usize = 0;
        proof {
            assert(s@.subrange(0, s@.len() as int) =~= s@);
        }
        while i < s.len()
            invariant
                i <= s@.len(),
                s@ == servers.servers@,
                zone@ == upload_zone(),
                first_upload_server(s@) == first_upload_server(s@.subrange(i as int, s@.len() as int)),
            decreases s@.len() - i,
        {
            proof {
                let rest = s@.subrange(i as int, s@.len() as int);
                assert(rest.drop_first() =~= s@.subrange(i + 1, s@.len() as int));
                assert(rest[0] == s@[i as int]);
            }
            if s[i].zone == zone {
                proof {
                    let rest = s@.subrange(i as int, s@.len() as int);
                    assert(first_upload_server(rest) == Some(s@[i as int]));
                }
                let base = String::from_str("https://").concat(s[i].name.as_str()).concat(".gofile.io");
                return Ok(ServerApi { base_url: base, uuid });
            }
            i = i + 1;
        }
        Err(Error::EmptyServerList)
    }

    /// The code of the shared content whose URL has the path segments `segs`
    /// (see `content_code`); an error about `url` where there is none.
    pub fn code_from_segments(url: url::Url, segs: Option<Vec<String>>) -> (r: Result<String, Error>)
        ensures
            match (r, content_code(segments_view(segs))) {
                (Ok(s), Ok(c)) => s@ == c,
                (Err(Error::InvalidContentUrl(u, m)), Err(msg)) => u == url && m@ == msg,
                _ => false,
            },
    {
        match segs {
            None => Err(Error::InvalidContentUrl(
                url,
                String::from_str("The content url must have path segments like '/d/XXXX'."),
            )),
            Some(v) => {
                let ghost sv = v@.map_values(|s: String| s@);
                let d = String::from_str("d");
                if v.len() == 0 || v[0] != d {
                    proof {
                        if v@.len() > 0 {
                            assert(sv[0] == v@[0]@);
                        }
                    }
                    Err(Error::InvalidContentUrl(
                        url,
                        String::from_str("The first path segment of content url must be 'd'."),
                    ))
                } else if v.len() < 2 {
                    proof {
                        assert(sv[0] == v@[0]@);
                    }
                    Err(Error::InvalidContentUrl(
                        url,
                        String::from_str("The content url must have two path segments like '/d/XXXX'."),
                    ))
                } else {
                    proof {
                        assert(sv[0] == v@[0]@);
                        assert(sv[1] == v@[1]@);
                    }
                    Ok(v[1].clone())
                }
            },
        }
    }

    /// The code of the shared content at `url`, such as "XXXX" for a URL
    /// whose path is "/d/XXXX" (see `content_code`); an error about `url`
    /// where there is none.
    pub fn code_from_content_url(url: &url::Url) -> (r: Result<String, Error>)
        ensures
            match (r, content_code(segments_of(*url))) {
                (Ok(s), Ok(c)) => s@ == c,
                (Err(Error::InvalidContentUrl(u, m)), Err(msg)) => u == *url && m@ == msg,
                _ => false,
            },
    {
        let segs = path_segments(url);
        Api::code_from_segments(url.clone(), segs)
    }

    /// The address of the endpoint `path` under `base_url`.
    pub fn endpoint(base_url: &str, path: &str) -> (r: String)
        ensures
            r@ == endpoint_text(base_url@, path@),
    {
        String::from_str(base_url).concat("/").concat(path)
    }

    /// The URL of the endpoint `path` under `base_url`; `None` where that is
    /// not a valid URL.
    pub fn url(base_url: &str, path: &str) -> (r: Option<url::Url>)
        ensures
            r == parsed_url(endpoint_text(base_url@, path@)),
    {
        let text = Api::endpoint(base_url, path);
        parse_url(text.as_str())
    }

    /// Whether an answer's HTTP status code is OK; any other is an error.
    pub fn answer_is_ok(status: u16) -> (r: bool)
        ensures
            r == (status == 200),
    {
        status == 200
    }

    /// The error for an answer from `url` whose status code `status` is not
    /// OK. Where its body held an envelope, the envelope's status is the
    /// error; otherwise the status code is.
    pub fn refused(url: url::Url, status: u16, envelope_status: Option<String>) -> (r: Error)
        ensures
            match (r, envelope_status) {
                (Error::ApiStatusError(u, s), Some(e)) => u == url && s == e,
                (Error::HttpStatusCodeError(u, c), None) => u == url && c == status,
                _ => false,
            },
    {
        match envelope_status {
            Some(e) => Error::ApiStatusError(url, e),
            None => Error::HttpStatusCodeError(url, status),
        }
    }

    /// Judges the status of an envelope that came with status code OK from
    /// `url`, before its data is read: "ok" lets the data through; any other
    /// status is an error that carries it.
    pub fn envelope_status(url: url::Url, status: String) -> (r: Result<(), Error>)
        ensures
            status@ == ok_status() ==> r is Ok,
            status@ != ok_status() ==> (match r {
                Err(Error::ApiStatusError(u, s)) => u == url && s == status,
                _ => false,
            }),
    {
        let ok = String::from_str("ok");
        if status != ok {
            return Err(Error::ApiStatusError(url, status));
        }
        Ok(())
    }
}

/// The extra fields of an upload form: the folder to upload into, then the
/// token of the account, each where given.
pub open spec fn upload_fields_view(folder_id: Option<u128>, token: Option<String>) -> Seq<(Seq<char>, Seq<char>)> {
    let f: Seq<(Seq<char>, Seq<char>)> = match folder_id {
        Some(id) => seq![("folderId"@, uuid_text(id))],
        None => Seq::empty(),
    };
    match token {
        Some(t) => f.push(("token"@, t@)),
        None => f,
    }
}

impl ServerApi {
    /// The path of the upload endpoint under a server's address.
    pub open spec fn upload_path() -> Seq<char> {
        "contents/uploadfile"@
    }

    /// The address of this server's upload endpoint.
    pub fn upload_endpoint(&self) -> (r: String)
        ensures
            r@ == endpoint_text(self.base_url@, Self::upload_path()),
    {
        Api::endpoint(self.base_url.as_str(), "contents/uploadfile")
    }

    /// The URL of this server's upload endpoint; `None` where the server's
    /// address does not make a valid URL.
    pub fn upload_url(&self) -> (r: Option<url::Url>)
        ensures
            r == parsed_url(endpoint_text(self.base_url@, Self::upload_path())),
    {
        Api::url(self.base_url.as_str(), "contents/uploadfile")
    }

    /// The text fields that go into an upload form beside the file.
    pub fn upload_fields(folder_id: Option<u128>, token: Option<String>) -> (r: Vec<(String, String)>)
        ensures
            r@.map_values(|p: (String, String)| (p.0@, p.1@)) == upload_fields_view(folder_id, token),
    {
        let ghost tok = token;
        let mut r: Vec<(String, String)> = Vec::new();
        if let Some(id) = folder_id {
            r.push((String::from_str("folderId"), uuid_string(id)));
        }
        if let Some(t) = token {
            r.push((String::from_str("token"), t));
        }
        proof {
            assert(r@.map_values(|p: (String, String)| (p.0@, p.1@)) =~= upload_fields_view(folder_id, tok));
        }
        r
    }
}

} // verus!
