use agent_session_search::email::{
    parse_port, resend_endpoint, resend_response, MailDelivery, MailSettings, ResendError, SesClient, SesError,
    Transport,
};

fn settings(
    key: Option<&str>,
    url: Option<&str>,
    host: Option<&str>,
    port: Option<&str>,
) -> MailSettings {
    MailSettings {
        resend_api_key: key.map(str::to_string),
        resend_api_base_url: url.map(str::to_string),
        smtp_host: host.map(str::to_string),
        smtp_port: port.map(str::to_string),
    }
}

fn client(s: &MailSettings) -> SesClient<&'static str, &'static str> {
    SesClient::from_settings("ses", "http", s, "dev")
}

#[test]
fn resend_is_preferred_over_smtp_and_ses() {
    let c = client(&settings(Some("re_key"), None, Some("localhost"), Some("2525")));
    match c.transport() {
        Transport::Resend { client, api_key, base_url } => {
            assert_eq!(*client, "http");
            assert_eq!(api_key, "re_key");
            assert_eq!(base_url, "https://api.resend.com");
        }
        other => panic!("unexpected transport {other:?}"),
    }
    let c = client(&settings(Some("re_key"), Some("http://resend.local/"), None, None));
    match c.transport() {
        Transport::Resend { base_url, .. } => assert_eq!(base_url, "http://resend.local/"),
        other => panic!("unexpected transport {other:?}"),
    }
    let c = client(&settings(Some("re_key"), Some(""), None, None));
    match c.transport() {
        Transport::Resend { base_url, .. } => assert_eq!(base_url, "https://api.resend.com"),
        other => panic!("unexpected transport {other:?}"),
    }
}

#[test]
fn smtp_is_used_without_a_resend_key() {
    let c = client(&settings(Some(""), None, Some("localhost"), Some("2525")));
    match c.transport() {
        Transport::Smtp { host, port } => {
            assert_eq!(host, "localhost");
            assert_eq!(*port, 2525);
        }
        other => panic!("unexpected transport {other:?}"),
    }
    let c = client(&settings(None, None, Some("mailpit"), Some("not-a-port")));
    match c.transport() {
        Transport::Smtp { port, .. } => assert_eq!(*port, 1025),
        other => panic!("unexpected transport {other:?}"),
    }
    let c = client(&settings(None, None, Some("mailpit"), None));
    match c.transport() {
        Transport::Smtp { port, .. } => assert_eq!(*port, 1025),
        other => panic!("unexpected transport {other:?}"),
    }
}

#[test]
fn ses_is_the_last_resort() {
    let c = client(&settings(None, None, Some(""), Some("2525")));
    match c.transport() {
        Transport::Ses(inner) => assert_eq!(*inner, "ses"),
        other => panic!("unexpected transport {other:?}"),
    }
    assert_eq!(c.environment(), "dev");
}

#[test]
fn invitations_need_a_sender() {
    let c = client(&settings(None, None, None, None));
    assert_eq!(c.invite_sender(), Err(SesError::InviteEmailNotSet));
    assert_eq!(SesError::InviteEmailNotSet.message(), "invite_email is not set");
    let c = c.invite_email("invites@macro.com");
    assert_eq!(c.invite_sender(), Ok("invites@macro.com".to_string()));
    assert_eq!(c.environment(), "dev");
}

#[test]
fn ports_parse_like_u16() {
    assert_eq!(parse_port("25"), Some(25));
    assert_eq!(parse_port("+25"), Some(25));
    assert_eq!(parse_port("65535"), Some(65535));
    assert_eq!(parse_port("65536"), None);
    assert_eq!(parse_port("099999"), None);
    assert_eq!(parse_port("00025"), Some(25));
    assert_eq!(parse_port(""), None);
    assert_eq!(parse_port("+"), None);
    assert_eq!(parse_port("-1"), None);
    assert_eq!(parse_port("2 5"), None);
    for text in ["0", "1", "1025", "8080", "65535", "70000", "12a", "+7", "++7", " 7"] {
        assert_eq!(parse_port(text), text.parse::<u16>().ok(), "{text}");
    }
}

#[test]
fn resend_endpoint_drops_trailing_slashes() {
    assert_eq!(resend_endpoint("https://api.resend.com"), "https://api.resend.com/emails");
    assert_eq!(resend_endpoint("https://api.resend.com///"), "https://api.resend.com/emails");
    assert_eq!(resend_endpoint(""), "/emails");
}

#[test]
fn resend_accepts_only_success_statuses() {
    assert_eq!(resend_response(200, "{}".to_string()), Ok(()));
    assert_eq!(resend_response(299, String::new()), Ok(()));
    assert_eq!(
        resend_response(422, "bad".to_string()),
        Err(ResendError { status: 422, body: "bad".to_string() })
    );
    assert!(resend_response(302, String::new()).is_err());
    assert!(resend_response(199, String::new()).is_err());
}

#[test]
fn an_invitation_is_one_mail_from_the_invitation_sender() {
    let c = client(&settings(None, None, None, None));
    assert_eq!(
        c.invite_delivery("new@acme.com", "Join", "<p>hi</p>".to_string()),
        Err(SesError::InviteEmailNotSet)
    );
    let c = c.invite_email("invites@macro.com");
    assert_eq!(
        c.invite_delivery("new@acme.com", "Join", "<p>hi</p>".to_string()),
        Ok(MailDelivery {
            from_email: "invites@macro.com".to_string(),
            to_email: "new@acme.com".to_string(),
            subject: "Join".to_string(),
            content: "<p>hi</p>".to_string(),
        })
    );
}
