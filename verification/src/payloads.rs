//! Request and response bodies of the platform's endpoints, with the rules
//! that the endpoints apply to them.

use vstd::prelude::*;
use vstd::string::StrSliceExecFns;
use vstd::string::StringExecFns;
use vstd::utf8::{decode_utf8, encode_utf8, encode_utf8_decode_utf8, is_char_boundary};
use crate::job::text_view;
use crate::text::{find_char, first_at, hex_digit, is_hex_digit, join, same_text};

verus! {

/// Credentials and profile sent to register or to log in.
pub struct AuthPayload {
    pub email: String,
    pub password: String,
    pub full_name: Option<String>,
    pub role: Option<String>,
    pub organization_name: Option<String>,
}

/// The part of an address before its first `@`; all of it if it has none.
pub open spec fn local_part(email: Seq<char>) -> Seq<char> {
    email.take(first_at(email, '@', 0))
}

/// The part of an address between its first `@` and its second, or its
/// end; nothing if it has no `@`.
pub open spec fn domain_part(email: Seq<char>) -> Option<Seq<char>> {
    let at = first_at(email, '@', 0);
    if at >= email.len() {
        None
    } else {
        Some(email.subrange(at + 1, first_at(email, '@', at + 1)))
    }
}

impl AuthPayload {
    /// The name to register: the one given, else the address's local part.
    pub fn full_name_or_default(&self) -> (r: String)
        ensures
            r@ == match self.full_name {
                Some(n) => n@,
                None => local_part(self.email@),
            },
    {
        match &self.full_name {
            Some(n) => n.clone(),
            None => {
                let email = self.email.as_str();
                let at = find_char(email, '@', 0);
                String::from_str(email.substring_char(0, at))
            },
        }
    }

    /// The role to register: the one given, else `instructor`.
    pub fn role_or_default(&self) -> (r: String)
        ensures
            r@ == match self.role {
                Some(x) => x@,
                None => "instructor"@,
            },
    {
        match &self.role {
            Some(x) => x.clone(),
            None => String::from_str("instructor"),
        }
    }

    /// The organization to register with: the one given, else the
    /// address's domain, else `default.com`.
    pub fn organization_or_default(&self) -> (r: String)
        ensures
            r@ == match self.organization_name {
                Some(o) => o@,
                None => match domain_part(self.email@) {
                    Some(d) => d,
                    None => "default.com"@,
                },
            },
    {
        match &self.organization_name {
            Some(o) => o.clone(),
            None => {
                let email = self.email.as_str();
                let n = email.unicode_len();
                let at = find_char(email, '@', 0);
                if at >= n {
                    String::from_str("default.com")
                } else {
                    let end = find_char(email, '@', at + 1);
                    String::from_str(email.substring_char(at + 1, end))
                }
            },
        }
    }
}

/// Paging of the audit log.
#[derive(Clone, Copy, Debug, PartialEq, Eq, Structural)]
pub struct AuditQuery {
    pub page: Option<i64>,
    pub limit: Option<i64>,
}

impl AuditQuery {
    /// Rows per page: the limit given, else 50.
    pub open spec fn limit_spec(self) -> int {
        match self.limit {
            Some(l) => l as int,
            None => 50,
        }
    }

    /// Rows to skip: the pages before the one asked for (the first, if none
    /// is given), times the rows per page.
    pub open spec fn offset_spec(self) -> int {
        (match self.page {
            Some(p) => p as int,
            None => 1,
        } - 1) * self.limit_spec()
    }

    /// The limit and the offset of the query, or nothing where the offset
    /// does not fit in 64 bits.
    pub fn window(&self) -> (r: Option<(i64, i64)>)
        ensures
            r == if i64::MIN <= self.offset_spec() <= i64::MAX {
                Some((self.limit_spec() as i64, self.offset_spec() as i64))
            } else {
                None
            },
    {
        let limit: i64 = match self.limit {
            Some(l) => l,
            None => 50,
        };
        let page: i64 = match self.page {
            Some(p) => p,
            None => 1,
        };
        let before: i128 = page as i128 - 1;
        let wide: i128 = limit as i128;
        assert(-0x4000_0000_0000_0001_0000_0000_0000_0000 <= before * wide
            <= 0x4000_0000_0000_0001_0000_0000_0000_0000) by (nonlinear_arith)
            requires
                -0x8000_0000_0000_0001 <= before <= 0x7fff_ffff_ffff_fffe,
                -0x8000_0000_0000_0000 <= wide <= 0x7fff_ffff_ffff_ffff,
        ;
        let offset: i128 = before * wide;
        if offset < i64::MIN as i128 || offset > i64::MAX as i128 {
            None
        } else {
            Some((limit, offset as i64))
        }
    }
}

/// New colors for an organization.
#[derive(Debug)]
pub struct BrandingPayload {
    pub primary_color: Option<String>,
    pub secondary_color: Option<String>,
}

/// A color in the form `#RRGGBB`: a `#` and six hexadecimal digits.
pub open spec fn is_color(s: Seq<char>) -> bool {
    s.len() == 7 && s[0] == '#' && forall|i: int| 1 <= i < 7 ==> is_hex_digit(#[trigger] s[i])
}

/// Whether the text is a color in the form `#RRGGBB`.
pub fn validate_color(color: &str) -> (r: bool)
    ensures
        r == is_color(color@),
{
    if color.unicode_len() != 7 {
        return false;
    }
    if color.get_char(0) != '#' {
        return false;
    }
    let mut i: usize = 1;
    while i < 7
        invariant
            1 <= i <= 7,
            color@.len() == 7,
            forall|k: int| 1 <= k < i ==> is_hex_digit(#[trigger] color@[k]),
        decreases 7 - i,
    {
        if !hex_digit(color.get_char(i)) {
            return false;
        }
        i += 1;
    }
    true
}

/// Which color of a branding request is malformed.
#[derive(Clone, Copy, Debug, PartialEq, Eq, Structural)]
pub enum BrandingError {
    PrimaryColor,
    SecondaryColor,
}

impl BrandingError {
    /// The message sent back with the refusal.
    pub fn message(&self) -> (m: &'static str)
        ensures
            m@ == match self {
                BrandingError::PrimaryColor => "Invalid primary_color format. Use #RRGGBB"@,
                BrandingError::SecondaryColor => "Invalid secondary_color format. Use #RRGGBB"@,
            },
    {
        match self {
            BrandingError::PrimaryColor => "Invalid primary_color format. Use #RRGGBB",
            BrandingError::SecondaryColor => "Invalid secondary_color format. Use #RRGGBB",
        }
    }
}

impl BrandingPayload {
    /// The first malformed color, the primary one before the secondary; a
    /// color that is not given is not checked.
    pub open spec fn first_error(self) -> Option<BrandingError> {
        if self.primary_color matches Some(p) && !is_color(p@) {
            Some(BrandingError::PrimaryColor)
        } else if self.secondary_color matches Some(s) && !is_color(s@) {
            Some(BrandingError::SecondaryColor)
        } else {
            None
        }
    }

    /// Accepts the request if each color given is well-formed.
    pub fn validate(&self) -> (r: Result<(), BrandingError>)
        ensures
            r == match self.first_error() {
                Some(e) => Err::<(), BrandingError>(e),
                None => Ok(()),
            },
    {
        if let Some(p) = &self.primary_color {
            if !validate_color(p.as_str()) {
                return Err(BrandingError::PrimaryColor);
            }
        }
        if let Some(s) = &self.secondary_color {
            if !validate_color(s.as_str()) {
                return Err(BrandingError::SecondaryColor);
            }
        }
        Ok(())
    }
}

/// An organization's branding as shown to everyone.
#[derive(Debug)]
pub struct BrandingResponse {
    pub logo_url: Option<String>,
    pub primary_color: String,
    pub secondary_color: String,
}

impl BrandingResponse {
    /// The branding of an organization from what is stored of it: colors
    /// that are not set are `#3B82F6` and `#8B5CF6`.
    pub fn from_stored(
        logo_url: Option<String>,
        primary_color: Option<String>,
        secondary_color: Option<String>,
    ) -> (r: BrandingResponse)
        ensures
            text_view(r.logo_url) == text_view(logo_url),
            r.primary_color@ == match primary_color {
                Some(c) => c@,
                None => "#3B82F6"@,
            },
            r.secondary_color@ == match secondary_color {
                Some(c) => c@,
                None => "#8B5CF6"@,
            },
    {
        BrandingResponse {
            logo_url,
            primary_color: match primary_color {
                Some(c) => c,
                None => String::from_str("#3B82F6"),
            },
            secondary_color: match secondary_color {
                Some(c) => c,
                None => String::from_str("#8B5CF6"),
            },
        }
    }
}

/// A new course announcement.
#[derive(Debug)]
pub struct CreateAnnouncementPayload {
    pub title: String,
    pub content: String,
    pub is_pinned: Option<bool>,
}

/// The text of the notification for an announcement: the content itself
/// if it has at most 100 bytes, else its first 100 bytes and `...`; nothing
/// if the hundredth byte ends in the middle of a character.
pub open spec fn excerpt(content: Seq<char>) -> Option<Seq<char>> {
    let bytes = encode_utf8(content);
    if bytes.len() <= 100 {
        Some(content)
    } else if is_char_boundary(bytes, 100) {
        Some(decode_utf8(bytes.subrange(0, 100)) + "..."@)
    } else {
        None
    }
}

impl CreateAnnouncementPayload {
    /// Whether the announcement is pinned: as given, else not.
    pub fn pinned(&self) -> (r: bool)
        ensures
            r == match self.is_pinned {
                Some(p) => p,
                None => false,
            },
    {
        match self.is_pinned {
            Some(p) => p,
            None => false,
        }
    }

    /// The title of the notification sent to each enrolled student.
    pub fn notification_title(&self) -> (r: String)
        ensures
            r@ == "Nuevo Anuncio: "@ + self.title@,
    {
        join("Nuevo Anuncio: ", self.title.as_str())
    }

    /// The text of the notification sent to each enrolled student.
    pub fn notification_message(&self) -> (r: Option<String>)
        ensures
            text_view(r) == excerpt(self.content@),
    {
        let content = self.content.as_str();
        if content.as_bytes().len() > 100 {
            if content.is_char_boundary(100) {
                let (head, _) = content.split_at(100);
                proof {
                    encode_utf8_decode_utf8(head@);
                }
                Some(join(head, "..."))
            } else {
                None
            }
        } else {
            Some(self.content.clone())
        }
    }
}

/// Changes to an announcement; what is not given stays.
#[derive(Debug)]
pub struct UpdateAnnouncementPayload {
    pub title: Option<String>,
    pub content: Option<String>,
    pub is_pinned: Option<bool>,
}

impl UpdateAnnouncementPayload {
    /// The announcement's title, content and pin after the update.
    pub fn merge(self, title: String, content: String, is_pinned: bool) -> (r: (
        String,
        String,
        bool,
    ))
        ensures
            r.0@ == match self.title {
                Some(t) => t@,
                None => title@,
            },
            r.1@ == match self.content {
                Some(c) => c@,
                None => content@,
            },
            r.2 == match self.is_pinned {
                Some(p) => p,
                None => is_pinned,
            },
    {
        (
            match self.title {
                Some(t) => t,
                None => title,
            },
            match self.content {
                Some(c) => c,
                None => content,
            },
            match self.is_pinned {
                Some(p) => p,
                None => is_pinned,
            },
        )
    }
}

/// A vote on a discussion post.
#[derive(Debug)]
pub struct VotePayload {
    pub vote_type: String,
}

impl VotePayload {
    /// Whether the vote is an `upvote` or a `downvote`; no other is taken.
    pub fn is_valid(&self) -> (r: bool)
        ensures
            r == (self.vote_type@ == "upvote"@ || self.vote_type@ == "downvote"@),
    {
        same_text(self.vote_type.as_str(), "upvote") || same_text(
            self.vote_type.as_str(),
            "downvote",
        )
    }
}

/// Where the payer is sent to pay.
#[derive(Debug)]
pub struct PaymentPreferenceResponse {
    pub preference_id: String,
    pub init_point: String,
}

impl PaymentPreferenceResponse {
    /// The response from what the payment provider returned; a field that
    /// it left out is empty.
    pub fn from_provider(id: Option<String>, init_point: Option<String>) -> (r: Self)
        ensures
            r.preference_id@ == match id {
                Some(x) => x@,
                None => Seq::<char>::empty(),
            },
            r.init_point@ == match init_point {
                Some(x) => x@,
                None => Seq::<char>::empty(),
            },
    {
        PaymentPreferenceResponse {
            preference_id: match id {
                Some(x) => x,
                None => String::new(),
            },
            init_point: match init_point {
                Some(x) => x,
                None => String::new(),
            },
        }
    }
}

/// The payment that a notification of the payment provider is about.
#[derive(Debug)]
pub struct MPWebhookData {
    pub id: String,
}

/// A notification of the payment provider.
#[derive(Debug)]
pub struct MPWebhookPayload {
    pub action: String,
    pub data: MPWebhookData,
}

impl MPWebhookPayload {
    /// Whether the notification reports a payment that was created or
    /// updated; every other one is acknowledged and dropped.
    pub fn is_payment_event(&self) -> (r: bool)
        ensures
            r == (self.action@ == "payment.created"@ || self.action@ == "payment.updated"@),
    {
        same_text(self.action.as_str(), "payment.created") || same_text(
            self.action.as_str(),
            "payment.updated",
        )
    }

    /// Whether a payment with this status is paid for: only an `approved`
    /// one is, and a payment without a status counts as pending.
    pub fn is_approved(status: Option<&str>) -> (r: bool)
        ensures
            r == (status matches Some(s) && s@ == "approved"@),
    {
        match status {
            Some(s) => same_text(s, "approved"),
            None => false,
        }
    }

    /// Where the payment's details are fetched from.
    pub fn payment_url(&self) -> (r: String)
        ensures
            r@ == "https://api.mercadopago.com/v1/payments/"@ + self.data.id@,
    {
        join("https://api.mercadopago.com/v1/payments/", self.data.id.as_str())
    }
}

} // verus!
