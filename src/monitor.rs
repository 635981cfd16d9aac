use vstd::prelude::*;

use crate::battery::{
    battery_table, create_fsm, lemma_battery_step, next_of, queued, BatteryFsm, Data, State,
};
use crate::config::{text_of, Config, Notification};
use crate::error::Error;
use crate::text::{
    chars_of, contains, has_infix, has_prefix, i32_value, parse_i32, second_field,
    second_field_text, starts_with,
};

verus! {

/// The value of `attribute` that a uevent line gives: the line starts with
/// the attribute's name, and its second `=`-separated field is an `i32`.
pub open spec fn attribute_value(line: Seq<char>, attribute: Seq<char>) -> Option<i32> {
    if has_prefix(line, attribute) {
        match second_field(line) {
            Some(f) => i32_value(f),
            None => None,
        }
    } else {
        None
    }
}

/// The status that a uevent line gives: the line starts with
/// `POWER_SUPPLY_STATUS`, and the status is its second `=`-separated field.
pub open spec fn status_value(line: Seq<char>) -> Option<Seq<char>> {
    if has_prefix(line, "POWER_SUPPLY_STATUS"@) {
        second_field(line)
    } else {
        None
    }
}

/// The value of `attribute` on the first of `lines` that gives one.
pub open spec fn first_attribute(lines: Seq<Seq<char>>, attribute: Seq<char>) -> Option<i32>
    decreases lines.len(),
{
    if lines.len() == 0 {
        None
    } else {
        match first_attribute(lines.drop_last(), attribute) {
            Some(v) => Some(v),
            None => attribute_value(lines.last(), attribute),
        }
    }
}

/// The status on the first of `lines` that gives one.
pub open spec fn first_status(lines: Seq<Seq<char>>) -> Option<Seq<char>>
    decreases lines.len(),
{
    if lines.len() == 0 {
        None
    } else {
        match first_status(lines.drop_last()) {
            Some(v) => Some(v),
            None => status_value(lines.last()),
        }
    }
}

/// The characters of each line.
pub open spec fn texts(lines: Seq<String>) -> Seq<Seq<char>> {
    lines.map_values(|l: String| l@)
}

/// The charge level, in percent of the full charge, or why there is none.
pub open spec fn level_of(now: i32, full: i32) -> Result<u32, Error> {
    if full <= 0 || now < 0 {
        Err(Error::InvalidCharge)
    } else if 100 * now / (full as int) > u32::MAX {
        Err(Error::LevelOutOfRange)
    } else {
        Ok((100 * now / (full as int)) as u32)
    }
}

/// The level and status that the uevent `lines` give, reading the charge
/// now from `now_attribute` and the full charge from `full_attribute`, or
/// the error that reading them meets.
pub open spec fn reading_of(lines: Seq<Seq<char>>, now_attribute: Seq<char>, full_attribute: Seq<char>) -> Result<
    (u32, Seq<char>),
    Error,
> {
    match (
        first_attribute(lines, now_attribute),
        first_attribute(lines, full_attribute),
        first_status(lines),
    ) {
        (Some(now), Some(full), Some(status)) => match level_of(now, full) {
            Ok(level) => Ok((level, status)),
            Err(e) => Err(e),
        },
        _ => Err(Error::MissingAttributes),
    }
}

/// The name of a power-supply attribute: `POWER_SUPPLY_<unit>_<suffix>`.
pub open spec fn attribute_name(unit: Seq<char>, suffix: Seq<char>) -> Seq<char> {
    "POWER_SUPPLY_"@ + unit + "_"@ + suffix
}

/// Whether the uevent `content` names the full-by-design, full and now
/// attributes of `unit`, each followed by `=`.
pub open spec fn has_unit(content: Seq<char>, unit: Seq<char>) -> bool {
    &&& has_infix(content, attribute_name(unit, "FULL_DESIGN"@) + "="@)
    &&& has_infix(content, attribute_name(unit, "FULL"@) + "="@)
    &&& has_infix(content, attribute_name(unit, "NOW"@) + "="@)
}

/// The path of the uevent file of the battery named `bat_name`, `BAT0` by default.
pub open spec fn uevent_path_of(bat_name: Option<String>) -> Seq<char> {
    let name = match bat_name {
        Some(n) => n@,
        None => "BAT0"@,
    };
    "/sys/class/power_supply/"@ + name + "/uevent"@
}

/// The suffix of the attribute that gives the full charge: by design unless
/// the configuration says otherwise.
pub open spec fn full_suffix(full_design: Option<bool>) -> Seq<char> {
    if full_design == Some(false) {
        "FULL"@
    } else {
        "FULL_DESIGN"@
    }
}

/// The notification that `config` gives for state `s`.
pub open spec fn configured_payload<'a>(config: &'a Config, s: State) -> Option<&'a Notification> {
    let n = match s {
        State::Charging => &config.charging,
        State::Discharging => &config.discharging,
        State::Full => &config.full,
        State::Low => &config.low,
        State::Critical => &config.critical,
    };
    match n {
        Some(v) => Some(v),
        None => None,
    }
}

/// The value of `attribute` that `line` gives, if it gives one.
pub fn parse_attribute(line: &str, attribute: &str) -> (r: Option<i32>)
    ensures
        r == attribute_value(line@, attribute@),
{
    let l = chars_of(line);
    let a = chars_of(attribute);
    if starts_with(&l, &a) {
        match second_field_text(&l) {
            Some(v) => parse_i32(&chars_of(v.as_str())),
            None => None,
        }
    } else {
        None
    }
}

/// The battery status that `line` gives, if it gives one.
pub fn parse_status(line: &str) -> (r: Option<String>)
    ensures
        r is Some <==> status_value(line@) is Some,
        r is Some ==> status_value(line@) == Some(r->0@),
{
    let l = chars_of(line);
    let p = chars_of("POWER_SUPPLY_STATUS");
    if starts_with(&l, &p) {
        second_field_text(&l)
    } else {
        None
    }
}

/// The name of the attribute `POWER_SUPPLY_<unit>_<suffix>`.
fn attribute_text(unit: &str, suffix: &str) -> (r: String)
    ensures
        r@ == attribute_name(unit@, suffix@),
{
    let mut r = "POWER_SUPPLY_".to_owned();
    r.append(unit);
    r.append("_");
    r.append(suffix);
    r
}

/// Whether `content` holds `attribute_name(unit, suffix)` followed by `=`.
fn names_attribute(content: &str, unit: &str, suffix: &str) -> (r: bool)
    ensures
        r == has_infix(content@, attribute_name(unit@, suffix@) + "="@),
{
    let mut pattern = attribute_text(unit, suffix);
    pattern.append("=");
    contains(content, pattern.as_str())
}

/// Whether `content` names the full-by-design, full and now attributes of `unit`.
fn names_unit(content: &str, unit: &str) -> (r: bool)
    ensures
        r == has_unit(content@, unit@),
{
    names_attribute(content, unit, "FULL_DESIGN") && names_attribute(content, unit, "FULL")
        && names_attribute(content, unit, "NOW")
}

/// The unit in which the battery whose uevent file holds `content` reports
/// its charge: `ENERGY` where it names all three energy attributes, else
/// `CHARGE` where it names all three charge attributes.
pub fn find_attribute_prefix(content: &str) -> (r: Result<&'static str, Error>)
    ensures
        has_unit(content@, "ENERGY"@) ==> r is Ok && r->Ok_0@ == "ENERGY"@,
        !has_unit(content@, "ENERGY"@) && has_unit(content@, "CHARGE"@) ==> r is Ok && r->Ok_0@
            == "CHARGE"@,
        !has_unit(content@, "ENERGY"@) && !has_unit(content@, "CHARGE"@) ==> r == Err::<
            &'static str,
            Error,
        >(Error::NoAttributePrefix),
{
    if names_unit(content, "ENERGY") {
        Ok("ENERGY")
    } else if names_unit(content, "CHARGE") {
        Ok("CHARGE")
    } else {
        Err(Error::NoAttributePrefix)
    }
}

/// The charge level in percent of the full charge, rounded down.
pub fn battery_level(now: i32, full: i32) -> (r: Result<u32, Error>)
    ensures
        r == level_of(now, full),
{
    if full <= 0 || now < 0 {
        return Err(Error::InvalidCharge);
    }
    let scaled: u64 = 100 * (now as u64);
    let level: u64 = scaled / (full as u64);
    if level > u32::MAX as u64 {
        Err(Error::LevelOutOfRange)
    } else {
        Ok(level as u32)
    }
}

/// The battery monitor: where to read the battery, which attributes to read,
/// and the state machine that decides what to announce.
pub struct Bato {
    uevent: String,
    now_attribute: String,
    full_attribute: String,
    fsm: BatteryFsm,
}

impl Bato {
    /// The path of the battery's uevent file.
    pub closed spec fn uevent_spec(&self) -> Seq<char> {
        self.uevent@
    }

    /// The attribute that gives the charge now.
    pub closed spec fn now_spec(&self) -> Seq<char> {
        self.now_attribute@
    }

    /// The attribute that gives the full charge.
    pub closed spec fn full_spec(&self) -> Seq<char> {
        self.full_attribute@
    }

    /// The state of the battery as last announced.
    pub closed spec fn state_spec(&self) -> State {
        self.fsm.state()
    }

    /// The machine is the battery's own. Every monitor that `with_config`
    /// makes is so, and `update` keeps it so.
    pub closed spec fn wf(&self) -> bool {
        battery_table(self.fsm.handlers())
    }

    /// The path of the uevent file of the battery that `config` names.
    pub fn uevent_path(config: &Config) -> (r: String)
        ensures
            r@ == uevent_path_of(config.bat_name),
    {
        let mut r = "/sys/class/power_supply/".to_owned();
        match &config.bat_name {
            Some(name) => r.append(name.as_str()),
            None => r.append("BAT0"),
        }
        r.append("/uevent");
        r
    }

    /// A monitor for the battery that `config` names, whose uevent file holds
    /// `uevent_content`; it starts in the discharging state.
    pub fn with_config(config: &Config, uevent_content: &str) -> (r: Result<Bato, Error>)
        ensures
            !has_unit(uevent_content@, "ENERGY"@) && !has_unit(uevent_content@, "CHARGE"@) ==> r
                == Err::<Bato, Error>(Error::NoAttributePrefix),
            has_unit(uevent_content@, "ENERGY"@) || has_unit(uevent_content@, "CHARGE"@) ==> r is Ok,
            r is Ok ==> ({
                let b = r->Ok_0;
                let unit = if has_unit(uevent_content@, "ENERGY"@) {
                    "ENERGY"@
                } else {
                    "CHARGE"@
                };
                &&& b.wf()
                &&& b.uevent_spec() == uevent_path_of(config.bat_name)
                &&& b.now_spec() == attribute_name(unit, "NOW"@)
                &&& b.full_spec() == attribute_name(unit, full_suffix(config.full_design))
                &&& b.state_spec() == State::Discharging
            }),
    {
        let full_design = match config.full_design {
            Some(v) => v,
            None => true,
        };
        let full_attr = if full_design {
            "FULL_DESIGN"
        } else {
            "FULL"
        };
        let uevent = Bato::uevent_path(config);
        let unit = match find_attribute_prefix(uevent_content) {
            Ok(u) => u,
            Err(e) => return Err(e),
        };
        let now_attribute = attribute_text(unit, "NOW");
        let full_attribute = attribute_text(unit, full_attr);
        Ok(Bato { uevent, now_attribute, full_attribute, fsm: create_fsm() })
    }

    /// The path of the battery's uevent file.
    pub fn uevent(&self) -> (r: &str)
        ensures
            r@ == self.uevent_spec(),
    {
        self.uevent.as_str()
    }

    /// The state of the battery as last announced.
    pub fn state(&self) -> (r: State)
        ensures
            r == self.state_spec(),
    {
        self.fsm.current_state()
    }

    /// The charge now, the full charge and the status that the uevent `lines`
    /// give, each from the first line that gives it.
    fn parse_attributes(&self, lines: &Vec<String>) -> (r: Result<(i32, i32, String), Error>)
        ensures
            match (
                first_attribute(texts(lines@), self.now_spec()),
                first_attribute(texts(lines@), self.full_spec()),
                first_status(texts(lines@)),
            ) {
                (Some(now), Some(full), Some(status)) => r matches Ok((a, b, c)) && a == now && b
                    == full && c@ == status,
                _ => r == Err::<(i32, i32, String), Error>(Error::MissingAttributes),
            },
    {
        let ghost all = texts(lines@);
        let mut now: Option<i32> = None;
        let mut full: Option<i32> = None;
        let mut status: Option<String> = None;
        let mut i: usize = 0;
        while i < lines.len()
            invariant
                all == texts(lines@),
                i <= lines.len(),
                now == first_attribute(all.take(i as int), self.now_spec()),
                full == first_attribute(all.take(i as int), self.full_spec()),
                text_of(status) == first_status(all.take(i as int)),
            decreases lines.len() - i,
        {
            let line = lines[i].as_str();
            if now.is_none() {
                now = parse_attribute(line, self.now_attribute.as_str());
            }
            if full.is_none() {
                full = parse_attribute(line, self.full_attribute.as_str());
            }
            if status.is_none() {
                status = parse_status(line);
            }
            assert(all.take(i + 1).drop_last() =~= all.take(i as int));
            assert(all.take(i + 1).last() == lines@[i as int]@);
            i = i + 1;
        }
        assert(all.take(lines.len() as int) =~= all);
        match (now, full, status) {
            (Some(a), Some(b), Some(c)) => Ok((a, b, c)),
            _ => Err(Error::MissingAttributes),
        }
    }

    /// One tick: reads the battery's charge and status from its uevent
    /// `lines`, moves the state machine at most one step, and returns the
    /// notifications to send, in order. A reading that fails changes nothing.
    pub fn update<'a>(&mut self, config: &'a Config, lines: &Vec<String>) -> (r: Result<
        Vec<&'a Notification>,
        Error,
    >)
        requires
            old(self).wf(),
        ensures
            final(self).wf(),
            final(self).uevent_spec() == old(self).uevent_spec(),
            final(self).now_spec() == old(self).now_spec(),
            final(self).full_spec() == old(self).full_spec(),
            match reading_of(texts(lines@), old(self).now_spec(), old(self).full_spec()) {
                Err(e) => r == Err::<Vec<&'a Notification>, Error>(e) && final(self).state_spec()
                    == old(self).state_spec(),
                Ok((level, status)) => r is Ok && match next_of(
                    old(self).state_spec(),
                    status,
                    level,
                    config.low_level,
                    config.critical_level,
                ) {
                    None => final(self).state_spec() == old(self).state_spec() && r->Ok_0@
                        == Seq::<&'a Notification>::empty(),
                    Some(next) => final(self).state_spec() == next && r->Ok_0@ == queued(
                        configured_payload(config, next),
                    ),
                },
            },
    {
        let (now, full, status) = match self.parse_attributes(lines) {
            Ok(t) => t,
            Err(e) => return Err(e),
        };
        let current_level = match battery_level(now, full) {
            Ok(l) => l,
            Err(e) => return Err(e),
        };
        let mut data = Data {
            current_level,
            status,
            low_level: config.low_level,
            critical_level: config.critical_level,
            critical: config.critical.as_ref(),
            low: config.low.as_ref(),
            full: config.full.as_ref(),
            charging: config.charging.as_ref(),
            discharging: config.discharging.as_ref(),
            outbox: Vec::new(),
        };
        let ghost before = data;
        let ghost machine = self.fsm;
        self.fsm.shift(&mut data);
        proof {
            lemma_battery_step(machine, self.fsm, before, data);
        }
        Ok(data.outbox)
    }
}


} // verus!
