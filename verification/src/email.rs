//! Outbound mail: which transport a client uses, the invitation sender, and
//! the Resend endpoint and response rules.
use vstd::prelude::*;

use crate::text::{chars_of, push_all, string_of, trim_end_char, trimmed_end_char, view_opt};

verus! {

/// How outbound mail is delivered: through SES (`Ses` is its client), through
/// SMTP to a local mail catcher, or through the Resend HTTP API (`Http` is
/// its client).
#[derive(Clone, Debug)]
pub enum Transport<Ses, Http> {
    Ses(Ses),
    Smtp { host: String, port: u16 },
    Resend { client: Http, api_key: String, base_url: String },
}

/// The mail settings read from the environment: `RESEND_API_KEY`,
/// `RESEND_API_BASE_URL`, `SMTP_HOST` and `SMTP_PORT`, each when set.
#[derive(Clone, Debug, PartialEq, Eq)]
pub struct MailSettings {
    pub resend_api_key: Option<String>,
    pub resend_api_base_url: Option<String>,
    pub smtp_host: Option<String>,
    pub smtp_port: Option<String>,
}

/// The Resend API used when no base URL is configured.
pub open spec fn default_resend_base_url() -> Seq<char> {
    "https://api.resend.com"@
}

/// The SMTP port used when `SMTP_PORT` is unset or not a port number.
pub const DEFAULT_SMTP_PORT: u16 = 1025;

/// The value of an ASCII decimal digit string.
pub open spec fn digits_value(s: Seq<char>) -> nat
    decreases s.len(),
{
    if s.len() == 0 {
        0
    } else {
        digits_value(s.drop_last()) * 10 + ((s.last() as u32) - ('0' as u32)) as nat
    }
}

/// Every character of `s` is an ASCII digit.
pub open spec fn all_digits(s: Seq<char>) -> bool {
    forall|i: int| 0 <= i < s.len() ==> '0' <= #[trigger] s[i] <= '9'
}

/// What `str::parse::<u16>` makes of `s`: an optional `+`, then one or more
/// ASCII digits whose value fits in 16 bits.
pub open spec fn parse_u16(s: Seq<char>) -> Option<u16> {
    let digits = if s.len() > 0 && s[0] == '+' {
        s.drop_first()
    } else {
        s
    };
    if digits.len() > 0 && all_digits(digits) && digits_value(digits) <= 0xffff {
        Some(digits_value(digits) as u16)
    } else {
        None
    }
}

/// Parses a port number as `str::parse::<u16>` does.
pub fn parse_port(s: &str) -> (r: Option<u16>)
    ensures
        r == parse_u16(s@),
{
    let cs = chars_of(s);
    let start: usize = if cs.len() > 0 && cs[0] == '+' {
        1
    } else {
        0
    };
    let ghost digits = cs@.subrange(start as int, cs.len() as int);
    assert(digits =~= (if s@.len() > 0 && s@[0] == '+' {
        s@.drop_first()
    } else {
        s@
    }));
    if start >= cs.len() {
        return None;
    }
    let mut value: u32 = 0;
    let mut i: usize = start;
    while i < cs.len()
        invariant
            start <= i <= cs.len(),
            cs@ == s@,
            digits == cs@.subrange(start as int, cs.len() as int),
            digits == (if s@.len() > 0 && s@[0] == '+' {
                s@.drop_first()
            } else {
                s@
            }),
            digits.len() > 0,
            all_digits(cs@.subrange(start as int, i as int)),
            value as nat == digits_value(cs@.subrange(start as int, i as int)),
            value <= 0xffff,
        decreases cs.len() - i,
    {
        let c = cs[i];
        if c < '0' || c > '9' {
            assert(digits[i - start] == c);
            assert(!all_digits(digits));
            return None;
        }
        let d = (c as u32) - ('0' as u32);
        assert(cs@.subrange(start as int, i + 1).drop_last() =~= cs@.subrange(start as int, i as int));
        let next = value * 10 + d;
        proof {
            assert(all_digits(cs@.subrange(start as int, i + 1)));
        }
        if next > 0xffff {
            proof {
                if all_digits(digits) {
                    lemma_digits_value_grows(digits, (i + 1 - start) as int);
                    assert(digits.subrange(0, (i + 1 - start) as int) =~= cs@.subrange(
                        start as int,
                        i + 1,
                    ));
                }
            }
            return None;
        }
        value = next;
        i = i + 1;
    }
    assert(cs@.subrange(start as int, cs.len() as int) =~= digits);
    Some(value as u16)
}

/// Extending a digit string never lowers its value.
proof fn lemma_digits_value_grows(s: Seq<char>, k: int)
    requires
        0 <= k <= s.len(),
        all_digits(s),
    ensures
        digits_value(s.subrange(0, k)) <= digits_value(s),
    decreases s.len() - k,
{
    if k < s.len() {
        lemma_digits_value_grows(s, k + 1);
        assert(s.subrange(0, k + 1).drop_last() =~= s.subrange(0, k));
    } else {
        assert(s.subrange(0, k) =~= s);
    }
}

/// The transport chosen from the settings: Resend when a non-empty API key is
/// set (with its base URL when that is set and non-empty, else the public
/// API), otherwise SMTP when a non-empty host is set (on its port when that
/// parses, else the default port), otherwise SES.
pub open spec fn chosen_transport<Ses, Http>(
    t: Transport<Ses, Http>,
    settings: MailSettings,
    ses: Ses,
    http: Http,
) -> bool {
    let key = settings.resend_api_key;
    let url = settings.resend_api_base_url;
    let h = settings.smtp_host;
    let p = settings.smtp_port;
    if key is Some && key->0@.len() > 0 {
        t matches Transport::Resend { client, api_key, base_url } && {
            &&& client == http
            &&& api_key@ == key->0@
            &&& base_url@ == (if url is Some && url->0@.len() > 0 {
                url->0@
            } else {
                default_resend_base_url()
            })
        }
    } else if h is Some && h->0@.len() > 0 {
        t matches Transport::Smtp { host, port } && {
            &&& host@ == h->0@
            &&& port == (if p is Some && parse_u16(p->0@) is Some {
                parse_u16(p->0@)->0
            } else {
                DEFAULT_SMTP_PORT
            })
        }
    } else {
        t == Transport::<Ses, Http>::Ses(ses)
    }
}

/// A setting that is present and not empty.
pub open spec fn is_set(setting: Option<String>) -> bool {
    setting is Some && setting->0@.len() > 0
}

/// Which transport the settings select: SES over the given client unless a
/// Resend key or an SMTP host is set; SMTP only with a set host, and then to
/// that host; Resend only with a set key, and then with that key over the
/// given HTTP client.
pub proof fn lemma_transport_choice<Ses, Http>(
    t: Transport<Ses, Http>,
    settings: MailSettings,
    ses: Ses,
    http: Http,
)
    requires
        chosen_transport(t, settings, ses, http),
    ensures
        !is_set(settings.resend_api_key) && !is_set(settings.smtp_host) ==> (t is Ses && t->0 == ses),
        is_set(settings.resend_api_key) ==> (t is Resend && t->client == http && t->api_key@
            == settings.resend_api_key->0@),
        t is Smtp ==> (is_set(settings.smtp_host) && t->host@ == settings.smtp_host->0@),
        t is Ses ==> (!is_set(settings.resend_api_key) && !is_set(settings.smtp_host)),
{
}

/// The error of an invitation with no sender address configured.
#[derive(Clone, Copy, Debug, PartialEq, Eq, Structural)]
pub enum SesError {
    InviteEmailNotSet,
}

impl SesError {
    /// The error's message.
    pub fn message(&self) -> (r: &'static str)
        ensures
            r@ == "invite_email is not set"@,
    {
        "invite_email is not set"
    }
}

/// One email to deliver: sender, recipient, subject and rendered HTML.
#[derive(Clone, Debug, PartialEq, Eq)]
pub struct MailDelivery {
    pub from_email: String,
    pub to_email: String,
    pub subject: String,
    pub content: String,
}

/// A mail client: its transport, the sender of invitations, and the
/// environment named in invitation messages.
#[derive(Clone, Debug)]
pub struct SesClient<Ses, Http> {
    transport: Transport<Ses, Http>,
    invite_email: Option<String>,
    environment: String,
}

impl<Ses, Http> SesClient<Ses, Http> {
    pub closed spec fn spec_transport(self) -> Transport<Ses, Http> {
        self.transport
    }

    pub closed spec fn spec_invite_email(self) -> Option<Seq<char>> {
        view_opt(self.invite_email)
    }

    pub closed spec fn spec_environment(self) -> Seq<char> {
        self.environment@
    }

    /// The client configured by `settings`: Resend is preferred, then SMTP,
    /// then SES through `inner`.
    pub fn from_settings(inner: Ses, http: Http, settings: &MailSettings, environment: &str) -> (r:
        SesClient<Ses, Http>)
        ensures
            chosen_transport(r.spec_transport(), *settings, inner, http),
            !is_set(settings.resend_api_key) && !is_set(settings.smtp_host) ==> (r.spec_transport() is Ses
                && r.spec_transport()->0 == inner),
            is_set(settings.resend_api_key) ==> (r.spec_transport() is Resend
                && r.spec_transport()->api_key@ == settings.resend_api_key->0@),
            r.spec_transport() is Smtp ==> (is_set(settings.smtp_host) && r.spec_transport()->host@
                == settings.smtp_host->0@),
            r.spec_invite_email() is None,
            r.spec_environment() == environment@,
    {
        let resend_key = match &settings.resend_api_key {
            Some(key) if !key.as_str().is_empty() => Some(key.clone()),
            _ => None,
        };
        let transport = match resend_key {
            Some(api_key) => {
                let base_url = match &settings.resend_api_base_url {
                    Some(url) if !url.as_str().is_empty() => url.clone(),
                    _ => "https://api.resend.com".to_owned(),
                };
                Transport::Resend { client: http, api_key, base_url }
            },
            None => match &settings.smtp_host {
                Some(host) if !host.as_str().is_empty() => {
                    let port = match &settings.smtp_port {
                        Some(p) => match parse_port(p.as_str()) {
                            Some(port) => port,
                            None => DEFAULT_SMTP_PORT,
                        },
                        None => DEFAULT_SMTP_PORT,
                    };
                    Transport::Smtp { host: host.clone(), port }
                },
                _ => Transport::Ses(inner),
            },
        };
        SesClient { transport, invite_email: None, environment: environment.to_owned() }
    }

    /// The client with `invite_email` as the sender of invitations.
    pub fn invite_email(self, invite_email: &str) -> (r: SesClient<Ses, Http>)
        ensures
            r.spec_transport() == self.spec_transport(),
            r.spec_environment() == self.spec_environment(),
            r.spec_invite_email() == Some(invite_email@),
    {
        SesClient {
            transport: self.transport,
            invite_email: Some(invite_email.to_owned()),
            environment: self.environment,
        }
    }

    /// The sender of an invitation, or the error when none is configured.
    pub fn invite_sender(&self) -> (r: Result<String, SesError>)
        ensures
            self.spec_invite_email() is None <==> r is Err,
            r matches Ok(sender) ==> self.spec_invite_email() == Some(sender@),
            r matches Err(e) ==> e == SesError::InviteEmailNotSet,
    {
        match &self.invite_email {
            Some(sender) => Ok(sender.clone()),
            None => Err(SesError::InviteEmailNotSet),
        }
    }

    /// The one email an invitation to `email` delivers: the invitation
    /// `html` (rendered for this client's environment) under `subject`, from
    /// the configured invitation sender; the error when none is configured.
    pub fn invite_delivery(&self, email: &str, subject: &str, html: String) -> (r: Result<
        MailDelivery,
        SesError,
    >)
        ensures
            self.spec_invite_email() is None <==> r is Err,
            r matches Err(e) ==> e == SesError::InviteEmailNotSet,
            r matches Ok(d) ==> {
                &&& self.spec_invite_email() == Some(d.from_email@)
                &&& d.to_email@ == email@
                &&& d.subject@ == subject@
                &&& d.content == html
            },
    {
        match self.invite_sender() {
            Ok(from_email) => Ok(
                MailDelivery {
                    from_email,
                    to_email: email.to_owned(),
                    subject: subject.to_owned(),
                    content: html,
                },
            ),
            Err(e) => Err(e),
        }
    }

    /// The transport mail goes through.
    pub fn transport(&self) -> (r: &Transport<Ses, Http>)
        ensures
            *r == self.spec_transport(),
    {
        &self.transport
    }

    /// The environment named in invitation messages.
    pub fn environment(&self) -> (r: &str)
        ensures
            r@ == self.spec_environment(),
    {
        self.environment.as_str()
    }
}

/// The Resend endpoint under `base_url`: the URL without trailing slashes,
/// then `/emails`.
pub open spec fn resend_endpoint_text(base_url: Seq<char>) -> Seq<char> {
    trim_end_char(base_url, '/') + "/emails"@
}

/// The Resend endpoint under `base_url`.
pub fn resend_endpoint(base_url: &str) -> (r: String)
    ensures
        r@ == resend_endpoint_text(base_url@),
{
    let cs = chars_of(base_url);
    let trimmed = trimmed_end_char(&cs, '/');
    let mut endpoint = string_of(&trimmed);
    push_all(&mut endpoint, "/emails");
    endpoint
}

/// Trailing slashes of the base URL do not change the Resend endpoint.
pub proof fn lemma_resend_endpoint_ignores_trailing_slash(base_url: Seq<char>)
    ensures
        resend_endpoint_text(base_url.push('/')) == resend_endpoint_text(base_url),
{
    assert(base_url.push('/').drop_last() =~= base_url);
}

/// A response of Resend that is not a success.
#[derive(Clone, Debug, PartialEq, Eq)]
pub struct ResendError {
    pub status: u16,
    pub body: String,
}

/// A 2xx status, as `StatusCode::is_success` tests.
pub open spec fn is_success_status(status: u16) -> bool {
    200 <= status <= 299
}

/// Accepts a 2xx response of Resend; any other status is an error carrying
/// the status and the response body.
pub fn resend_response(status: u16, body: String) -> (r: Result<(), ResendError>)
    ensures
        r is Ok <==> is_success_status(status),
        r matches Err(e) ==> e.status == status && e.body == body,
{
    if 200 <= status && status <= 299 {
        Ok(())
    } else {
        Err(ResendError { status, body })
    }
}

} // verus!
