//! The text of a meter line: a padded name followed by a bar and the
//! numbers.

use vstd::prelude::*;
use vstd::string::StrSliceExecFns;
use vstd::string::StringExecFns;
use crate::meter::{ActiveMeterType, GoalMeterType, Meter, MeterType, PassiveMeterType};

verus! {

/// The character of the filled part of a bar.
pub const FILLED: char = '\u{2588}';

/// The character of the empty part of a bar.
pub const EMPTY: char = '\u{2591}';

/// Builds meter lines in a scratch string.
pub struct MeterView {
    name_padding: usize,
    meter_width: usize,
    scratch: String,
}

/// The mathematical value of a [`MeterView`].
pub struct MeterViewModel {
    pub name_padding: usize,
    pub meter_width: usize,
    pub scratch: Seq<char>,
}

impl View for MeterView {
    type V = MeterViewModel;

    closed spec fn view(&self) -> MeterViewModel {
        MeterViewModel {
            name_padding: self.name_padding,
            meter_width: self.meter_width,
            scratch: self.scratch@,
        }
    }
}

/// The long name of a meter kind.
pub open spec fn meter_name_spec(typ: MeterType) -> Seq<char> {
    match typ {
        MeterType::Gun => "Quadgun - shoot in 4 directions at once"@,
        MeterType::Medkit => "Medkit - use to heal, recharges over time"@,
        MeterType::Metabol => "Metabol - delay transformations of nearby enemies"@,
        MeterType::Push => "Push - push nearby enemies away from you"@,
        MeterType::Health => "Health - be alive"@,
        MeterType::Stamina => "Stamina - spend to punch, recharges over time"@,
        MeterType::Kevlar => "Armour - chance to negate damage"@,
        MeterType::RailGun => "Railgun - shoot enemies in line"@,
        MeterType::Blink => "Blink - teleport a short distance"@,
        MeterType::Compass => "Compass - know the distance to the nearest goal"@,
    }
}

/// The short name of an active meter.
pub open spec fn active_name(typ: ActiveMeterType) -> Seq<char> {
    match typ {
        ActiveMeterType::Gun => "Quadgun"@,
        ActiveMeterType::Medkit => "Medkit"@,
        ActiveMeterType::Metabol => "Metabol"@,
        ActiveMeterType::Push => "Push"@,
        ActiveMeterType::RailGun => "Railgun"@,
        ActiveMeterType::Blink => "Blink"@,
    }
}

/// The short name of a passive meter.
pub open spec fn passive_name(typ: PassiveMeterType) -> Seq<char> {
    match typ {
        PassiveMeterType::Health => "Health"@,
        PassiveMeterType::Stamina => "Stamina"@,
        PassiveMeterType::Kevlar => "Armour"@,
        PassiveMeterType::Compass => "Compass"@,
    }
}

/// The short name of a goal meter.
pub open spec fn goal_name(typ: GoalMeterType) -> Seq<char> {
    match typ {
        GoalMeterType::BossHealth => "Boss"@,
        GoalMeterType::DistanceToExit => "Metres"@,
        GoalMeterType::SuperEggHealth => "Hatching"@,
    }
}

/// `count` copies of `c`.
pub open spec fn repeated(c: char, count: int) -> Seq<char> {
    Seq::new(
        if count > 0 {
            count as nat
        } else {
            0
        },
        |i: int| c,
    )
}

/// `name` followed by as many spaces as it takes to reach `width`
/// characters; a longer name stays as it is.
pub open spec fn padded(name: Seq<char>, width: int) -> Seq<char> {
    name + repeated(' ', width - name.len())
}

/// The character of a decimal digit.
pub open spec fn digit(d: int) -> char {
    if d == 0 {
        '0'
    } else if d == 1 {
        '1'
    } else if d == 2 {
        '2'
    } else if d == 3 {
        '3'
    } else if d == 4 {
        '4'
    } else if d == 5 {
        '5'
    } else if d == 6 {
        '6'
    } else if d == 7 {
        '7'
    } else if d == 8 {
        '8'
    } else {
        '9'
    }
}

/// The decimal digits of a number, without leading zeros.
pub open spec fn decimal(n: nat) -> Seq<char>
    decreases n,
{
    if n < 10 {
        seq![digit(n as int)]
    } else {
        decimal(n / 10).push(digit((n % 10) as int))
    }
}

/// A negative number counts as zero.
pub open spec fn floored(n: int) -> nat {
    if n > 0 {
        n as nat
    } else {
        0
    }
}

/// How many cells of a bar of `width` cells are filled: the share of the
/// value in the maximum, rounded down, but at least one cell for any value
/// above zero.
pub open spec fn filled_cells(width: int, value: nat, max: nat) -> int {
    let share = (width * value) / (max as int);
    if value > 0 && share == 0 {
        1
    } else {
        share
    }
}

/// The bar and the numbers of a meter.
pub open spec fn meter_text(width: int, meter: Meter) -> Seq<char> {
    let value = floored(meter.value as int);
    let max = floored(meter.max as int);
    let filled = filled_cells(width, value, max);
    repeated(FILLED, filled) + repeated(EMPTY, width - filled) + seq![' '] + decimal(value) + seq![
        '/',
    ] + decimal(max)
}

/// The label of an active meter: its key, a closing bracket, a star if it
/// is selected, and its padded name.
pub open spec fn active_label(
    typ: ActiveMeterType,
    identifier: char,
    is_selected: bool,
    padding: int,
) -> Seq<char> {
    seq![identifier, ')', if is_selected {
        '*'
    } else {
        ' '
    }] + padded(active_name(typ), padding)
}

/// The label of a passive meter: three spaces and its padded name.
pub open spec fn passive_label(typ: PassiveMeterType, padding: int) -> Seq<char> {
    seq![' ', ' ', ' '] + padded(passive_name(typ), padding)
}

/// The label of a goal meter: three spaces and its padded name.
pub open spec fn goal_label(typ: GoalMeterType, padding: int) -> Seq<char> {
    seq![' ', ' ', ' '] + padded(goal_name(typ), padding)
}

/// The long name of a meter kind.
pub fn meter_name(typ: MeterType) -> (name: &'static str)
    ensures
        name@ == meter_name_spec(typ),
{
    match typ {
        MeterType::Gun => "Quadgun - shoot in 4 directions at once",
        MeterType::Medkit => "Medkit - use to heal, recharges over time",
        MeterType::Metabol => "Metabol - delay transformations of nearby enemies",
        MeterType::Push => "Push - push nearby enemies away from you",
        MeterType::Health => "Health - be alive",
        MeterType::Stamina => "Stamina - spend to punch, recharges over time",
        MeterType::Kevlar => "Armour - chance to negate damage",
        MeterType::RailGun => "Railgun - shoot enemies in line",
        MeterType::Blink => "Blink - teleport a short distance",
        MeterType::Compass => "Compass - know the distance to the nearest goal",
    }
}

/// Calls `String::push`, which appends one character to a string.
#[verifier::external_body]
fn push_char(s: &mut String, c: char)
    ensures
        final(s)@ == old(s)@.push(c),
{
    s.push(c)
}

/// Appends `count` copies of `c`.
fn push_repeated(s: &mut String, c: char, count: usize)
    ensures
        final(s)@ == old(s)@ + repeated(c, count as int),
{
    let mut i: usize = 0;
    assert(old(s)@ + repeated(c, 0) =~= old(s)@);
    while i < count
        invariant
            i <= count,
            s@ == old(s)@ + repeated(c, i as int),
        decreases count - i,
    {
        push_char(s, c);
        assert(s@ =~= old(s)@ + repeated(c, i + 1));
        i += 1;
    }
}

/// Appends `name`, padded with spaces to `width` characters.
fn push_padded(s: &mut String, name: &str, width: usize)
    ensures
        final(s)@ == old(s)@ + padded(name@, width as int),
{
    s.append(name);
    let len = name.unicode_len();
    let fill = if width > len {
        width - len
    } else {
        0
    };
    push_repeated(s, ' ', fill);
    assert(s@ =~= old(s)@ + padded(name@, width as int));
}

/// The character of a decimal digit.
fn digit_char(d: usize) -> (c: char)
    requires
        d < 10,
    ensures
        c == digit(d as int),
{
    if d == 0 {
        '0'
    } else if d == 1 {
        '1'
    } else if d == 2 {
        '2'
    } else if d == 3 {
        '3'
    } else if d == 4 {
        '4'
    } else if d == 5 {
        '5'
    } else if d == 6 {
        '6'
    } else if d == 7 {
        '7'
    } else if d == 8 {
        '8'
    } else {
        '9'
    }
}

/// Appends the decimal digits of `n`.
fn push_decimal(s: &mut String, n: usize)
    ensures
        final(s)@ == old(s)@ + decimal(n as nat),
    decreases n,
{
    if n < 10 {
        push_char(s, digit_char(n));
        assert(s@ =~= old(s)@ + decimal(n as nat));
    } else {
        push_decimal(s, n / 10);
        push_char(s, digit_char(n % 10));
        assert(s@ =~= old(s)@ + decimal(n as nat));
    }
}

impl MeterView {
    /// A view that pads names to `name_padding` characters and draws bars
    /// of `meter_width` cells.
    pub fn new(name_padding: usize, meter_width: usize) -> (v: MeterView)
        ensures
            v@ == (MeterViewModel { name_padding, meter_width, scratch: Seq::empty() }),
    {
        MeterView { name_padding, meter_width, scratch: String::new() }
    }

    /// The text built so far.
    pub fn scratch(&self) -> (s: &str)
        ensures
            s@ == self@.scratch,
    {
        self.scratch.as_str()
    }

    /// Empties the scratch string.
    pub fn clear(&mut self)
        ensures
            final(self)@ == (MeterViewModel { scratch: Seq::empty(), ..old(self)@ }),
    {
        self.scratch = String::new();
    }

    /// Appends a title and a space.
    pub fn write_title(&mut self, title: &str)
        ensures
            final(self)@ == (MeterViewModel {
                scratch: old(self)@.scratch + title@ + seq![' '],
                ..old(self)@
            }),
    {
        self.scratch.append(title);
        push_char(&mut self.scratch, ' ');
        assert(self.scratch@ =~= old(self)@.scratch + title@ + seq![' ']);
    }

    /// Appends the label of an active meter.
    pub fn write_active_name(&mut self, typ: ActiveMeterType, identifier: char, is_selected: bool)
        ensures
            final(self)@ == (MeterViewModel {
                scratch: old(self)@.scratch + active_label(
                    typ,
                    identifier,
                    is_selected,
                    old(self)@.name_padding as int,
                ),
                ..old(self)@
            }),
    {
        let seperator = if is_selected {
            '*'
        } else {
            ' '
        };
        push_char(&mut self.scratch, identifier);
        push_char(&mut self.scratch, ')');
        push_char(&mut self.scratch, seperator);
        let name = match typ {
            ActiveMeterType::Gun => "Quadgun",
            ActiveMeterType::Medkit => "Medkit",
            ActiveMeterType::Metabol => "Metabol",
            ActiveMeterType::Push => "Push",
            ActiveMeterType::RailGun => "Railgun",
            ActiveMeterType::Blink => "Blink",
        };
        push_padded(&mut self.scratch, name, self.name_padding);
        assert(self.scratch@ =~= old(self)@.scratch + active_label(
            typ,
            identifier,
            is_selected,
            old(self)@.name_padding as int,
        ));
    }

    /// Appends the label of a passive meter.
    pub fn write_passive_name(&mut self, typ: PassiveMeterType)
        ensures
            final(self)@ == (MeterViewModel {
                scratch: old(self)@.scratch + passive_label(typ, old(self)@.name_padding as int),
                ..old(self)@
            }),
    {
        push_repeated(&mut self.scratch, ' ', 3);
        let name = match typ {
            PassiveMeterType::Health => "Health",
            PassiveMeterType::Stamina => "Stamina",
            PassiveMeterType::Kevlar => "Armour",
            PassiveMeterType::Compass => "Compass",
        };
        push_padded(&mut self.scratch, name, self.name_padding);
        assert(repeated(' ', 3) =~= seq![' ', ' ', ' ']);
        assert(self.scratch@ =~= old(self)@.scratch + passive_label(
            typ,
            old(self)@.name_padding as int,
        ));
    }

    /// Appends the label of a goal meter.
    pub fn write_goal_name(&mut self, typ: GoalMeterType)
        ensures
            final(self)@ == (MeterViewModel {
                scratch: old(self)@.scratch + goal_label(typ, old(self)@.name_padding as int),
                ..old(self)@
            }),
    {
        push_repeated(&mut self.scratch, ' ', 3);
        let name = match typ {
            GoalMeterType::BossHealth => "Boss",
            GoalMeterType::DistanceToExit => "Metres",
            GoalMeterType::SuperEggHealth => "Hatching",
        };
        push_padded(&mut self.scratch, name, self.name_padding);
        assert(repeated(' ', 3) =~= seq![' ', ' ', ' ']);
        assert(self.scratch@ =~= old(self)@.scratch + goal_label(
            typ,
            old(self)@.name_padding as int,
        ));
    }

    /// Appends the bar and the numbers of a meter.
    ///
    /// The bar shows the share of the value in the maximum; any value above
    /// zero fills at least one cell. The maximum must be positive, and the
    /// product of the bar's width and the value must fit the machine word.
    pub fn write_meter(&mut self, meter: Meter)
        requires
            meter.max > 0,
            old(self)@.meter_width * floored(meter.value as int) <= usize::MAX,
        ensures
            final(self)@ == (MeterViewModel {
                scratch: old(self)@.scratch + meter_text(old(self)@.meter_width as int, meter),
                ..old(self)@
            }),
    {
        let value: usize = if meter.value > 0 {
            meter.value as usize
        } else {
            0
        };
        let max: usize = if meter.max > 0 {
            meter.max as usize
        } else {
            0
        };
        let share = (self.meter_width * value) / max;
        let filled_meter_width = if value > 0 && share == 0 {
            1
        } else {
            share
        };
        let remaining_meter_width = if self.meter_width > filled_meter_width {
            self.meter_width - filled_meter_width
        } else {
            0
        };
        push_repeated(&mut self.scratch, FILLED, filled_meter_width);
        push_repeated(&mut self.scratch, EMPTY, remaining_meter_width);
        push_char(&mut self.scratch, ' ');
        push_decimal(&mut self.scratch, value);
        push_char(&mut self.scratch, '/');
        push_decimal(&mut self.scratch, max);
        assert(repeated(EMPTY, remaining_meter_width as int) =~= repeated(
            EMPTY,
            self.meter_width - filled_meter_width,
        ));
        assert(self.scratch@ =~= old(self)@.scratch + meter_text(
            old(self)@.meter_width as int,
            meter,
        ));
    }
}

} // verus!
