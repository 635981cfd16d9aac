use vstd::prelude::*;

use crate::error::Error;
use crate::text::contains_char;

verus! {

/// How pressing a notification is.
#[derive(Debug, Clone, Copy, PartialEq, Eq, Structural)]
pub enum Urgency {
    Low,
    Normal,
    Critical,
}

/// The texts and urgency of a notification, as values.
pub struct NotificationView {
    pub summary: Seq<char>,
    pub body: Option<Seq<char>>,
    pub icon: Option<Seq<char>>,
    pub urgency: Option<Urgency>,
}

/// The characters of an optional text.
pub open spec fn text_of(s: Option<String>) -> Option<Seq<char>> {
    match s {
        Some(t) => Some(t@),
        None => None,
    }
}

/// Whether an optional text holds a NUL character.
pub open spec fn has_nul(s: Option<Seq<char>>) -> bool {
    match s {
        Some(t) => t.contains('\0'),
        None => false,
    }
}

impl NotificationView {
    /// Whether some text of the notification holds a NUL character.
    pub open spec fn holds_nul(self) -> bool {
        self.summary.contains('\0') || has_nul(self.body) || has_nul(self.icon)
    }

    /// The notification with `u` as its urgency where it names none.
    pub open spec fn or_urgency(self, u: Urgency) -> NotificationView {
        NotificationView {
            urgency: if self.urgency is None { Some(u) } else { self.urgency },
            ..self
        }
    }
}

/// A notification as the user writes it in the configuration.
pub struct NotificationConfig {
    pub summary: String,
    pub body: Option<String>,
    pub icon: Option<String>,
    pub urgency: Option<Urgency>,
}

impl View for NotificationConfig {
    type V = NotificationView;

    open spec fn view(&self) -> NotificationView {
        NotificationView {
            summary: self.summary@,
            body: text_of(self.body),
            icon: text_of(self.icon),
            urgency: self.urgency,
        }
    }
}

/// A notification ready to be sent: none of its texts holds a NUL character.
pub struct Notification {
    summary: String,
    body: Option<String>,
    icon: Option<String>,
    urgency: Option<Urgency>,
}

impl View for Notification {
    type V = NotificationView;

    closed spec fn view(&self) -> NotificationView {
        NotificationView {
            summary: self.summary@,
            body: text_of(self.body),
            icon: text_of(self.icon),
            urgency: self.urgency,
        }
    }
}

/// Fails where the text holds a NUL character.
fn checked_text(s: Option<String>) -> (r: Result<Option<String>, Error>)
    ensures
        has_nul(text_of(s)) ==> r == Err::<Option<String>, Error>(Error::NulByte),
        !has_nul(text_of(s)) ==> r == Ok::<Option<String>, Error>(s),
{
    match s {
        Some(t) => {
            if contains_char(t.as_str(), '\0') {
                Err(Error::NulByte)
            } else {
                Ok(Some(t))
            }
        },
        None => Ok(None),
    }
}

impl Notification {
    #[verifier::type_invariant]
    spec fn inv(&self) -> bool {
        !self@.holds_nul()
    }

    /// The notification of `config`; fails where one of its texts holds a NUL character.
    pub fn try_from(config: NotificationConfig) -> (r: Result<Notification, Error>)
        ensures
            config@.holds_nul() ==> r == Err::<Notification, Error>(Error::NulByte),
            !config@.holds_nul() ==> r is Ok && r->Ok_0@ == config@,
    {
        if contains_char(config.summary.as_str(), '\0') {
            return Err(Error::NulByte);
        }
        let body = match checked_text(config.body) {
            Ok(b) => b,
            Err(e) => return Err(e),
        };
        let icon = match checked_text(config.icon) {
            Ok(i) => i,
            Err(e) => return Err(e),
        };
        Ok(Notification { summary: config.summary, body, icon, urgency: config.urgency })
    }

    /// The summary line.
    pub fn summary(&self) -> (r: &str)
        ensures
            r@ == self@.summary,
    {
        self.summary.as_str()
    }

    /// The body text, if any.
    pub fn body(&self) -> (r: Option<&str>)
        ensures
            r is Some == self@.body is Some,
            r is Some ==> r->0@ == self@.body->0,
    {
        match &self.body {
            Some(b) => Some(b.as_str()),
            None => None,
        }
    }

    /// The icon name, if any.
    pub fn icon(&self) -> (r: Option<&str>)
        ensures
            r is Some == self@.icon is Some,
            r is Some ==> r->0@ == self@.icon->0,
    {
        match &self.icon {
            Some(i) => Some(i.as_str()),
            None => None,
        }
    }

    /// The urgency, if one is set.
    pub fn urgency(&self) -> (r: Option<Urgency>)
        ensures
            r == self@.urgency,
    {
        self.urgency
    }

    /// Sets the urgency to `u` where none is set.
    fn default_urgency(&mut self, u: Urgency)
        ensures
            final(self)@ == old(self)@.or_urgency(u),
    {
        proof {
            use_type_invariant(&*self);
        }
        if self.urgency.is_none() {
            self.urgency = Some(u);
        }
    }
}

/// The view of an optional notification.
pub open spec fn notification_view(n: Option<Notification>) -> Option<NotificationView> {
    match n {
        Some(v) => Some(v@),
        None => None,
    }
}

/// The view of an optional notification as configured.
pub open spec fn configured_view(n: Option<NotificationConfig>) -> Option<NotificationView> {
    match n {
        Some(v) => Some(v@),
        None => None,
    }
}

/// Whether an optional configured notification holds a NUL character.
pub open spec fn configured_holds_nul(n: Option<NotificationConfig>) -> bool {
    match n {
        Some(v) => v@.holds_nul(),
        None => false,
    }
}

/// An optional notification with `u` as its urgency where it names none.
pub open spec fn with_default_urgency(n: Option<NotificationView>, u: Urgency) -> Option<NotificationView> {
    match n {
        Some(v) => Some(v.or_urgency(u)),
        None => None,
    }
}

/// The configuration as the user writes it.
pub struct UserConfig {
    pub tick_rate: Option<u32>,
    pub bat_name: Option<String>,
    pub low_level: u32,
    pub critical_level: u32,
    pub full_design: Option<bool>,
    pub critical: Option<NotificationConfig>,
    pub low: Option<NotificationConfig>,
    pub full: Option<NotificationConfig>,
    pub charging: Option<NotificationConfig>,
    pub discharging: Option<NotificationConfig>,
}

impl UserConfig {
    /// Whether some configured notification holds a NUL character.
    pub open spec fn holds_nul(&self) -> bool {
        ||| configured_holds_nul(self.critical)
        ||| configured_holds_nul(self.low)
        ||| configured_holds_nul(self.full)
        ||| configured_holds_nul(self.charging)
        ||| configured_holds_nul(self.discharging)
    }
}

/// The checked configuration.
pub struct Config {
    pub tick_rate: Option<u32>,
    pub bat_name: Option<String>,
    pub low_level: u32,
    pub critical_level: u32,
    pub full_design: Option<bool>,
    pub critical: Option<Notification>,
    pub low: Option<Notification>,
    pub full: Option<Notification>,
    pub charging: Option<Notification>,
    pub discharging: Option<Notification>,
}

/// The notification of an optional configured one.
fn notification_of(n: Option<NotificationConfig>) -> (r: Result<Option<Notification>, Error>)
    ensures
        configured_holds_nul(n) ==> r == Err::<Option<Notification>, Error>(Error::NulByte),
        !configured_holds_nul(n) ==> r is Ok && notification_view(r->Ok_0) == configured_view(n),
{
    match n {
        Some(c) => match Notification::try_from(c) {
            Ok(v) => Ok(Some(v)),
            Err(e) => Err(e),
        },
        None => Ok(None),
    }
}

impl Config {
    /// Checks the user's configuration: the critical level may not lie above
    /// the low level, and no notification text may hold a NUL character.
    pub fn new(user: UserConfig) -> (r: Result<Config, Error>)
        ensures
            user.critical_level > user.low_level ==> r == Err::<Config, Error>(Error::ThresholdOrder),
            user.critical_level <= user.low_level && user.holds_nul() ==> r == Err::<Config, Error>(
                Error::NulByte,
            ),
            user.critical_level <= user.low_level && !user.holds_nul() ==> r is Ok,
            r is Ok ==> ({
                let c = r->Ok_0;
                &&& c.tick_rate == user.tick_rate
                &&& c.bat_name == user.bat_name
                &&& c.low_level == user.low_level
                &&& c.critical_level == user.critical_level
                &&& c.full_design == user.full_design
                &&& notification_view(c.critical) == configured_view(user.critical)
                &&& notification_view(c.low) == configured_view(user.low)
                &&& notification_view(c.full) == configured_view(user.full)
                &&& notification_view(c.charging) == configured_view(user.charging)
                &&& notification_view(c.discharging) == configured_view(user.discharging)
            }),
    {
        if user.critical_level > user.low_level {
            return Err(Error::ThresholdOrder);
        }
        let critical = match notification_of(user.critical) {
            Ok(n) => n,
            Err(e) => return Err(e),
        };
        let low = match notification_of(user.low) {
            Ok(n) => n,
            Err(e) => return Err(e),
        };
        let full = match notification_of(user.full) {
            Ok(n) => n,
            Err(e) => return Err(e),
        };
        let charging = match notification_of(user.charging) {
            Ok(n) => n,
            Err(e) => return Err(e),
        };
        let discharging = match notification_of(user.discharging) {
            Ok(n) => n,
            Err(e) => return Err(e),
        };
        Ok(Config {
            tick_rate: user.tick_rate,
            bat_name: user.bat_name,
            low_level: user.low_level,
            critical_level: user.critical_level,
            full_design: user.full_design,
            critical,
            low,
            full,
            charging,
            discharging,
        })
    }

    /// Gives the critical notification the critical urgency, and the low and
    /// full notifications the normal one, where they name none.
    pub fn normalize(&mut self) -> (r: &Self)
        ensures
            final(self).tick_rate == old(self).tick_rate,
            final(self).bat_name == old(self).bat_name,
            final(self).low_level == old(self).low_level,
            final(self).critical_level == old(self).critical_level,
            final(self).full_design == old(self).full_design,
            notification_view(final(self).critical) == with_default_urgency(
                notification_view(old(self).critical),
                Urgency::Critical,
            ),
            notification_view(final(self).low) == with_default_urgency(
                notification_view(old(self).low),
                Urgency::Normal,
            ),
            notification_view(final(self).full) == with_default_urgency(
                notification_view(old(self).full),
                Urgency::Normal,
            ),
            final(self).charging == old(self).charging,
            final(self).discharging == old(self).discharging,
            *r == *final(self),
    {
        if let Some(v) = &mut self.critical {
            v.default_urgency(Urgency::Critical);
        }
        if let Some(v) = &mut self.low {
            v.default_urgency(Urgency::Normal);
        }
        if let Some(v) = &mut self.full {
            v.default_urgency(Urgency::Normal);
        }
        self
    }
}

} // verus!
