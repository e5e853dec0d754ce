//! Google Docs: stored OAuth credentials, Drive/Docs request construction,
//! and the shape of an extracted document.

use vstd::prelude::*;
use vstd::utf8::*;
use crate::model::clone_opt_string;
use crate::percent::{ascii_chars, encode, percent_encode_bytes};
use crate::text::{decimal, first_segment, first_segment_of, push_char, push_decimal, push_str,
    strip_prefix, to_owned_string};

verus! {

/// Stored Google OAuth client credentials and tokens.
pub struct GoogleOAuthConfig {
    pub client_id: String,
    pub client_secret: Option<String>,
    pub access_token: Option<String>,
    pub refresh_token: Option<String>,
    pub expires_at: Option<i64>,
}

impl Default for GoogleOAuthConfig {
    fn default() -> (r: Self)
        ensures
            r.client_id@.len() == 0,
            r.client_secret is None,
            r.access_token is None,
            r.refresh_token is None,
            r.expires_at is None,
    {
        GoogleOAuthConfig {
            client_id: String::new(),
            client_secret: None,
            access_token: None,
            refresh_token: None,
            expires_at: None,
        }
    }
}

/// What the settings page shows about Google OAuth.
pub struct GDocsOAuthStatus {
    pub server_running: bool,
    pub server_url: Option<String>,
    pub credentials_configured: bool,
    pub is_authenticated: bool,
}

impl GoogleOAuthConfig {
    /// A client id has been configured.
    pub fn has_credentials(&self) -> (b: bool)
        ensures
            b == (self.client_id@.len() > 0),
    {
        !self.client_id.as_str().is_empty()
    }

    /// An access token is stored.
    pub fn has_valid_token(&self) -> (b: bool)
        ensures
            b == self.access_token is Some,
    {
        self.access_token.is_some()
    }

    /// Sets the client credentials, keeping the tokens.
    pub fn configure(&mut self, client_id: String, client_secret: Option<String>)
        ensures
            final(self).client_id == client_id,
            final(self).client_secret == client_secret,
            final(self).access_token == old(self).access_token,
            final(self).refresh_token == old(self).refresh_token,
            final(self).expires_at == old(self).expires_at,
    {
        self.client_id = client_id;
        self.client_secret = client_secret;
    }

    /// Records the tokens of a completed sign-in, keeping the credentials.
    pub fn store_tokens(&mut self, access_token: String, refresh_token: Option<String>, expires_at: Option<i64>)
        ensures
            final(self).client_id == old(self).client_id,
            final(self).client_secret == old(self).client_secret,
            final(self).access_token == Some(access_token),
            final(self).refresh_token == refresh_token,
            final(self).expires_at == expires_at,
    {
        self.access_token = Some(access_token);
        self.refresh_token = refresh_token;
        self.expires_at = expires_at;
    }

    /// The status for the settings page: the Docs API is used directly, so it
    /// is always "running" and has no server URL.
    pub fn oauth_status(&self) -> (r: GDocsOAuthStatus)
        ensures
            r.server_running,
            r.server_url is None,
            r.credentials_configured == (self.client_id@.len() > 0),
            r.is_authenticated == self.access_token is Some,
    {
        GDocsOAuthStatus {
            server_running: true,
            server_url: None,
            credentials_configured: self.has_credentials(),
            is_authenticated: self.has_valid_token(),
        }
    }

    /// A Docs client for the stored access token, if there is one.
    pub fn create_client(&self) -> (r: Option<GoogleDocsClient>)
        ensures
            match self.access_token {
                Some(t) => r matches Some(c) && c.access_token() == t@,
                None => r is None,
            },
    {
        match &self.access_token {
            Some(t) => Some(GoogleDocsClient::new(t.clone())),
            None => None,
        }
    }
}

/// `s` with every `'` written as `\'` (Drive query quoting).
pub open spec fn escape_quotes(s: Seq<char>) -> Seq<char>
    decreases s.len(),
{
    if s.len() == 0 {
        Seq::empty()
    } else if s.last() == '\'' {
        escape_quotes(s.drop_last()) + seq!['\\', '\'']
    } else {
        escape_quotes(s.drop_last()).push(s.last())
    }
}

fn push_escaped_quotes(out: &mut String, s: &str)
    ensures
        final(out)@ == old(out)@ + escape_quotes(s@),
{
    let n = s.unicode_len();
    let mut i: usize = 0;
    while i < n
        invariant
            n == s@.len(),
            i <= n,
            out@ == old(out)@ + escape_quotes(s@.take(i as int)),
        decreases n - i,
    {
        let c = s.get_char(i);
        proof {
            assert(s@.take(i + 1).drop_last() =~= s@.take(i as int));
            assert(s@.take(i + 1).last() == c);
        }
        if c == '\'' {
            push_char(out, '\\');
            push_char(out, '\'');
        } else {
            push_char(out, c);
        }
        assert(out@ =~= old(out)@ + escape_quotes(s@.take(i + 1)));
        i = i + 1;
    }
    assert(s@.take(n as int) =~= s@);
}

/// The Drive search query: Google Docs only, optionally matching the user's text.
pub open spec fn drive_query(query: Option<Seq<char>>) -> Seq<char> {
    "mimeType='application/vnd.google-apps.document'"@ + match query {
        Some(q) => " and fullText contains '"@ + escape_quotes(q) + "'"@,
        None => Seq::empty(),
    }
}

/// The Drive request listing Google Docs, at most 100 per page.
pub open spec fn list_documents_url(query: Option<Seq<char>>, limit: nat) -> Seq<char> {
    "https://www.googleapis.com/drive/v3/files?pageSize="@ + decimal(if limit < 100 { limit } else { 100 })
        + "&fields=files(id,name,mimeType,modifiedTime,createdTime)"@ + "&q="@ + ascii_chars(
        percent_encode_bytes(encode_utf8(drive_query(query))),
    )
}

/// A client of the Google Drive and Docs APIs for one access token; it
/// builds the requests, which the application sends.
pub struct GoogleDocsClient {
    access_token: String,
}

impl GoogleDocsClient {
    pub closed spec fn access_token(&self) -> Seq<char> {
        self.access_token@
    }

    pub fn new(access_token: String) -> (r: Self)
        ensures
            r.access_token() == access_token@,
    {
        GoogleDocsClient { access_token }
    }

    /// The `Authorization` header value.
    pub fn authorization(&self) -> (r: String)
        ensures
            r@ == "Bearer "@ + self.access_token(),
    {
        let mut s = String::new();
        push_str(&mut s, "Bearer ");
        push_str(&mut s, self.access_token.as_str());
        s
    }

    /// URL listing the user's Google Docs.
    pub fn list_documents_url(query: Option<&str>, limit: usize) -> (r: String)
        ensures
            r@ == list_documents_url(
                match query {
                    Some(q) => Some(q@),
                    None => None,
                },
                limit as nat,
            ),
    {
        let mut url = String::new();
        push_str(&mut url, "https://www.googleapis.com/drive/v3/files?pageSize=");
        let page = if limit < 100 {
            limit
        } else {
            100
        };
        push_decimal(&mut url, page as u64);
        push_str(&mut url, "&fields=files(id,name,mimeType,modifiedTime,createdTime)");
        let mut q = String::new();
        push_str(&mut q, "mimeType='application/vnd.google-apps.document'");
        match query {
            Some(user_query) => {
                push_str(&mut q, " and fullText contains '");
                push_escaped_quotes(&mut q, user_query);
                push_str(&mut q, "'");
            },
            None => {},
        }
        let ghost qv = match query {
            Some(x) => Some(x@),
            None => None,
        };
        assert(q@ =~= drive_query(qv));
        push_str(&mut url, "&q=");
        let enc = encode(q.as_str());
        push_str(&mut url, enc.as_str());
        assert(url@ =~= list_documents_url(qv, limit as nat));
        url
    }

    /// URL fetching a document with the content of all its tabs.
    pub fn document_with_tabs_url(doc_id: &str) -> (r: String)
        ensures
            r@ == "https://docs.googleapis.com/v1/documents/"@ + doc_id@ + "?includeTabsContent=true"@,
    {
        let mut s = String::new();
        push_str(&mut s, "https://docs.googleapis.com/v1/documents/");
        push_str(&mut s, doc_id);
        push_str(&mut s, "?includeTabsContent=true");
        s
    }

    /// URL of a document's metadata.
    pub fn document_info_url(doc_id: &str) -> (r: String)
        ensures
            r@ == "https://docs.googleapis.com/v1/documents/"@ + doc_id@,
    {
        let mut s = String::new();
        push_str(&mut s, "https://docs.googleapis.com/v1/documents/");
        push_str(&mut s, doc_id);
        s
    }

    /// URL exporting a whole document in the given MIME type.
    pub fn export_url(doc_id: &str, mime_type: &str) -> (r: String)
        ensures
            r@ == "https://www.googleapis.com/drive/v3/files/"@ + doc_id@ + "/export?mimeType="@
                + mime_type@,
    {
        let mut s = String::new();
        push_str(&mut s, "https://www.googleapis.com/drive/v3/files/");
        push_str(&mut s, doc_id);
        push_str(&mut s, "/export?mimeType=");
        push_str(&mut s, mime_type);
        s
    }

    /// URL exporting one tab of a document as HTML.
    pub fn export_tab_url(doc_id: &str, tab_id: &str) -> (r: String)
        ensures
            r@ == "https://www.googleapis.com/drive/v3/files/"@ + doc_id@
                + "/export?mimeType=text/html&tabId="@ + tab_id@,
    {
        let mut s = String::new();
        push_str(&mut s, "https://www.googleapis.com/drive/v3/files/");
        push_str(&mut s, doc_id);
        push_str(&mut s, "/export?mimeType=text/html&tabId=");
        push_str(&mut s, tab_id);
        s
    }
}

/// The MIME type of a fetched image: the `Content-Type` before any `;`
/// parameters, `image/png` when the header is missing.
pub fn image_mime_type(content_type: Option<&str>) -> (r: String)
    ensures
        r@ == first_segment(
            match content_type {
                Some(c) => c@,
                None => "image/png"@,
            },
            ';',
        ),
{
    match content_type {
        Some(c) => first_segment_of(c, ';'),
        None => first_segment_of("image/png", ';'),
    }
}

/// An access token as given in an `Authorization` header, without `Bearer `.
pub fn bearer_token(token: &str) -> (r: String)
    ensures
        ("Bearer "@.len() <= token@.len() && token@.subrange(0, "Bearer "@.len() as int) == "Bearer "@) ==> r@
            == token@.subrange("Bearer "@.len() as int, token@.len() as int),
        !("Bearer "@.len() <= token@.len() && token@.subrange(0, "Bearer "@.len() as int) == "Bearer "@)
            ==> r@ == token@,
{
    match strip_prefix(token, "Bearer ") {
        Some(t) => t,
        None => to_owned_string(token),
    }
}

/// File metadata from the Drive API.
pub struct DriveFile {
    pub id: String,
    pub name: String,
    pub mime_type: String,
    pub modified_time: Option<String>,
    pub created_time: Option<String>,
}

/// A page of Drive files.
pub struct DriveFileList {
    pub files: Vec<DriveFile>,
    pub next_page_token: Option<String>,
}

/// A Google Doc in the import picker.
pub struct GoogleDocListItem {
    pub id: String,
    pub name: String,
    pub modified_time: Option<String>,
    pub created_time: Option<String>,
}

impl GoogleDocListItem {
    pub fn from_drive_file(f: DriveFile) -> (r: Self)
        ensures
            r.id == f.id,
            r.name == f.name,
            r.modified_time == f.modified_time,
            r.created_time == f.created_time,
    {
        GoogleDocListItem {
            id: f.id,
            name: f.name,
            modified_time: f.modified_time,
            created_time: f.created_time,
        }
    }
}

/// Document metadata.
pub struct DocumentInfo {
    pub id: String,
    pub title: String,
    pub revision_id: Option<String>,
}

impl DocumentInfo {
    /// The revision id, used to detect changes.
    pub fn revision_id(&self) -> (r: Option<String>)
        ensures
            r == self.revision_id,
    {
        clone_opt_string(&self.revision_id)
    }
}

} // verus!
