//! Per-message delivery settings and the request headers they become.
use vstd::prelude::*;
use vstd::string::StringSliceAdditionalSpecFns;
use reqwest::header::HeaderMap;
use crate::error::QStashError;
use crate::headers::{
    empty_header_map, extend_headers, header_entries, header_names_len, insert_header,
    lemma_digits_valid, sensitive_names, valid_header_bytes, MAX_HEADER_NAMES,
};
use crate::text::{decimal_of, decimal_text};

verus! {

/// Header that delays delivery.
pub const DELAY_HEADER: &'static str = "upstash-delay";

/// Header that sets the number of delivery retries.
pub const RETRIES_HEADER: &'static str = "upstash-retries";

/// Header that schedules the message by a cron expression.
pub const CRON_HEADER: &'static str = "upstash-cron";

/// Header that names the callback address.
pub const CALLBACK_HEADER: &'static str = "upstash-callback";

/// Header that carries the deduplication id.
pub const DEDUP_HEADER: &'static str = "upstash-deduplication-id";

/// The number of named directives that a settings value can set.
pub const DIRECTIVE_COUNT: usize = 5;

/// Optional parameters and configuration for messages
#[derive(Debug)]
pub struct MessageSettings<'a> {
    pub delay: Option<&'a str>,
    pub retries: Option<u32>,
    pub cron: Option<&'a str>,
    pub callback: Option<&'a str>,
    pub dedup_id: Option<&'a str>,
    pub custom_headers: Option<HeaderMap>,
}

/// A textual directive, where it is set, can stand in a header value.
pub open spec fn text_valid(o: Option<&str>) -> bool {
    match o {
        Some(v) => valid_header_bytes(v.spec_bytes()),
        None => true,
    }
}

/// `m` with the directive `o`, where it is set, as the one value of `name`.
pub open spec fn with_text(
    m: Map<Seq<char>, Seq<Seq<u8>>>,
    name: Seq<char>,
    o: Option<&str>,
) -> Map<Seq<char>, Seq<Seq<u8>>> {
    match o {
        Some(v) => m.insert(name, seq![v.spec_bytes()]),
        None => m,
    }
}

/// The bytes of the decimal text of a retry count.
pub open spec fn retries_bytes(n: u32) -> Seq<u8> {
    vstd::utf8::encode_utf8(decimal_of(n as int))
}

/// The headers of the named directives alone: one per directive that is set.
pub open spec fn directive_entries(s: MessageSettings) -> Map<Seq<char>, Seq<Seq<u8>>> {
    let m1 = with_text(Map::empty(), DELAY_HEADER@, s.delay);
    let m2 = match s.retries {
        Some(n) => m1.insert(RETRIES_HEADER@, seq![retries_bytes(n)]),
        None => m1,
    };
    let m3 = with_text(m2, CRON_HEADER@, s.cron);
    let m4 = with_text(m3, CALLBACK_HEADER@, s.callback);
    with_text(m4, DEDUP_HEADER@, s.dedup_id)
}

/// The headers of a settings value: the named directives, then the custom
/// headers, which win over a directive of the same name.
pub open spec fn settings_entries(s: MessageSettings) -> Map<Seq<char>, Seq<Seq<u8>>> {
    match s.custom_headers {
        Some(c) => directive_entries(s).union_prefer_right(header_entries(c)),
        None => directive_entries(s),
    }
}

/// Every textual directive that is set can stand in a header value.
pub open spec fn settings_valid(s: MessageSettings) -> bool {
    &&& text_valid(s.delay)
    &&& text_valid(s.cron)
    &&& text_valid(s.callback)
    &&& text_valid(s.dedup_id)
}

/// The names of the custom headers whose values are all marked sensitive.
pub open spec fn custom_sensitive(s: MessageSettings) -> Set<Seq<char>> {
    match s.custom_headers {
        Some(c) => sensitive_names(c),
        None => Set::empty(),
    }
}

/// The custom headers leave room for the named directives in one map.
pub open spec fn custom_fits(s: MessageSettings) -> bool {
    match s.custom_headers {
        Some(c) => header_entries(c).dom().len() <= MAX_HEADER_NAMES - DIRECTIVE_COUNT,
        None => true,
    }
}

/// The header names are constants that the transport takes as they are.
proof fn lemma_static_names()
    ensures
        crate::headers::is_static_header_name(DELAY_HEADER@),
        crate::headers::is_static_header_name(RETRIES_HEADER@),
        crate::headers::is_static_header_name(CRON_HEADER@),
        crate::headers::is_static_header_name(CALLBACK_HEADER@),
        crate::headers::is_static_header_name(DEDUP_HEADER@),
{
    reveal_strlit("upstash-delay");
    reveal_strlit("upstash-retries");
    reveal_strlit("upstash-cron");
    reveal_strlit("upstash-callback");
    reveal_strlit("upstash-deduplication-id");
}

/// Puts the directive `o`, where it is set, into `headers` under `name`.
fn insert_text(
    headers: &mut HeaderMap,
    name: &'static str,
    o: Option<&str>,
) -> (r: Result<(), QStashError>)
    requires
        crate::headers::is_static_header_name(name@),
        header_entries(*old(headers)).dom().finite(),
        header_entries(*old(headers)).dom().len() < MAX_HEADER_NAMES,
    ensures
        r is Ok <==> text_valid(o),
        r is Err ==> r == Err::<(), QStashError>(QStashError::InvalidHeaderValue(r->Err_0->InvalidHeaderValue_0)),
        r is Ok ==> header_entries(*final(headers)) == with_text(header_entries(*old(headers)), name@, o),
        r is Ok ==> sensitive_names(*final(headers)) == match o {
            Some(_) => sensitive_names(*old(headers)).remove(name@),
            None => sensitive_names(*old(headers)),
        },
{
    match o {
        Some(v) => match insert_header(headers, name, v.as_bytes(), false) {
            Ok(()) => Ok(()),
            Err(e) => Err(QStashError::InvalidHeaderValue(e)),
        },
        None => Ok(()),
    }
}

/// The names of the custom headers of a settings value.
pub open spec fn custom_names(s: MessageSettings) -> Set<Seq<char>> {
    match s.custom_headers {
        Some(c) => header_entries(c).dom(),
        None => Set::empty(),
    }
}

/// The fixed names of the directives that a settings value sets.
pub open spec fn directive_names(s: MessageSettings) -> Set<Seq<char>> {
    let n1 = if s.delay is Some { set![DELAY_HEADER@] } else { Set::empty() };
    let n2 = if s.retries is Some { n1.insert(RETRIES_HEADER@) } else { n1 };
    let n3 = if s.cron is Some { n2.insert(CRON_HEADER@) } else { n2 };
    let n4 = if s.callback is Some { n3.insert(CALLBACK_HEADER@) } else { n3 };
    if s.dedup_id is Some { n4.insert(DEDUP_HEADER@) } else { n4 }
}

/// The header set of any settings value holds exactly one header under its
/// fixed name for each directive that is set, and every custom header; where
/// a custom header has the name of a directive, the custom value wins. No
/// other name appears.
pub proof fn lemma_headers_layout(s: MessageSettings)
    ensures
        settings_entries(s).dom() == directive_names(s).union(custom_names(s)),
        forall|name: Seq<char>|
            #[trigger] custom_names(s).contains(name) ==> settings_entries(s)[name]
                == header_entries(s.custom_headers->Some_0)[name],
        s.delay is Some && !custom_names(s).contains(DELAY_HEADER@) ==> settings_entries(s)[DELAY_HEADER@]
            == seq![s.delay->Some_0.spec_bytes()],
        s.retries is Some && !custom_names(s).contains(RETRIES_HEADER@) ==> settings_entries(
            s,
        )[RETRIES_HEADER@] == seq![retries_bytes(s.retries->Some_0)],
        s.cron is Some && !custom_names(s).contains(CRON_HEADER@) ==> settings_entries(s)[CRON_HEADER@]
            == seq![s.cron->Some_0.spec_bytes()],
        s.callback is Some && !custom_names(s).contains(CALLBACK_HEADER@) ==> settings_entries(
            s,
        )[CALLBACK_HEADER@] == seq![s.callback->Some_0.spec_bytes()],
        s.dedup_id is Some && !custom_names(s).contains(DEDUP_HEADER@) ==> settings_entries(
            s,
        )[DEDUP_HEADER@] == seq![s.dedup_id->Some_0.spec_bytes()],
{
    reveal_strlit("upstash-delay");
    reveal_strlit("upstash-retries");
    reveal_strlit("upstash-cron");
    reveal_strlit("upstash-callback");
    reveal_strlit("upstash-deduplication-id");
    assert(DELAY_HEADER@.len() == 13 && RETRIES_HEADER@.len() == 15 && CRON_HEADER@.len() == 12);
    assert(CALLBACK_HEADER@.len() == 16 && DEDUP_HEADER@.len() == 24);
    assert(directive_entries(s).dom() =~= directive_names(s));
    assert(settings_entries(s).dom() =~= directive_names(s).union(custom_names(s)));
}

/// Settings with nothing set are accepted and give no headers at all, as
/// publishing without settings does.
pub proof fn lemma_empty_settings(s: MessageSettings)
    requires
        s.delay is None,
        s.retries is None,
        s.cron is None,
        s.callback is None,
        s.dedup_id is None,
        s.custom_headers is None,
    ensures
        settings_valid(s),
        custom_fits(s),
        settings_entries(s) =~= Map::empty(),
        custom_sensitive(s) =~= Set::empty(),
{
}

impl<'a> MessageSettings<'a> {
    /// Settings with no directive set.
    pub fn new() -> (r: Self)
        ensures
            r.delay is None,
            r.retries is None,
            r.cron is None,
            r.callback is None,
            r.dedup_id is None,
            r.custom_headers is None,
    {
        MessageSettings {
            delay: None,
            retries: None,
            cron: None,
            callback: None,
            dedup_id: None,
            custom_headers: None,
        }
    }

    /// Delay a message by a certain amount of time relative to the time the
    /// message was published, written as a number and a unit: `10s`, `1m`,
    /// `30m`, `2h`, `7d`.
    pub fn delay(self, delay: &'a str) -> (r: Self)
        ensures
            r == (MessageSettings { delay: Some(delay), ..self }),
    {
        MessageSettings { delay: Some(delay), ..self }
    }

    /// Set the number of retries for the message. The largest number allowed
    /// depends on the plan of the account.
    pub fn retries(self, retries: u32) -> (r: Self)
        ensures
            r == (MessageSettings { retries: Some(retries), ..self }),
    {
        MessageSettings { retries: Some(retries), ..self }
    }

    /// Set the cron expression by which the service publishes the message
    /// again and again. The service evaluates it in UTC.
    pub fn cron(self, cron: &'a str) -> (r: Self)
        ensures
            r == (MessageSettings { cron: Some(cron), ..self }),
    {
        MessageSettings { cron: Some(cron), ..self }
    }

    /// An address that the service calls with the response once delivery
    /// has finished.
    pub fn callback_url(self, callback_url: &'a str) -> (r: Self)
        ensures
            r == (MessageSettings { callback: Some(callback_url), ..self }),
    {
        MessageSettings { callback: Some(callback_url), ..self }
    }

    /// A deduplication id: a second message with the same id is accepted by
    /// the service but not enqueued.
    pub fn dedup_id(self, dedup_id: &'a str) -> (r: Self)
        ensures
            r == (MessageSettings { dedup_id: Some(dedup_id), ..self }),
    {
        MessageSettings { dedup_id: Some(dedup_id), ..self }
    }

    /// HTTP headers to forward along with the message.
    pub fn custom_headers(self, custom_headers: HeaderMap) -> (r: Self)
        ensures
            r == (MessageSettings { custom_headers: Some(custom_headers), ..self }),
    {
        MessageSettings { custom_headers: Some(custom_headers), ..self }
    }

    /// The request headers of these settings: one header under its fixed
    /// name for each directive that is set, the retry count in decimal, then
    /// the custom headers, which win over a directive of the same name.
    ///
    /// Fails with `InvalidHeaderValue` when a directive cannot stand in a
    /// header value, and with `Unknown` when the custom headers leave no room
    /// for the directives.
    pub fn as_headers(self) -> (r: Result<HeaderMap, QStashError>)
        ensures
            r is Ok <==> settings_valid(self) && custom_fits(self),
            r is Err && !settings_valid(self) ==> r->Err_0 is InvalidHeaderValue,
            r is Err && settings_valid(self) ==> r->Err_0 is Unknown,
            r is Ok ==> header_entries(r->Ok_0) == settings_entries(self),
            r is Ok ==> sensitive_names(r->Ok_0) == custom_sensitive(self),
    {
        let ghost s = self;
        proof {
            lemma_static_names();
        }
        let mut headers = empty_header_map();
        insert_text(&mut headers, DELAY_HEADER, self.delay)?;
        if let Some(retries) = self.retries {
            let text = decimal_text(retries as i64);
            proof {
                lemma_digits_valid(retries as nat);
            }
            match insert_header(&mut headers, RETRIES_HEADER, text.as_str().as_bytes(), false) {
                Ok(()) => {},
                Err(e) => {
                    return Err(QStashError::InvalidHeaderValue(e));
                },
            }
        }
        insert_text(&mut headers, CRON_HEADER, self.cron)?;
        insert_text(&mut headers, CALLBACK_HEADER, self.callback)?;
        insert_text(&mut headers, DEDUP_HEADER, self.dedup_id)?;
        assert(header_entries(headers) == directive_entries(s));
        assert(sensitive_names(headers) =~= Set::empty());
        if let Some(custom) = self.custom_headers {
            let n = header_names_len(&custom);
            if n > MAX_HEADER_NAMES - DIRECTIVE_COUNT {
                return Err(QStashError::Unknown);
            }
            extend_headers(&mut headers, custom);
        }
        Ok(headers)
    }
}

} // verus!
