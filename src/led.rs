//! The user LEDs of the BeagleBone, driven through the LED class driver's
//! control files.
use vstd::prelude::*;
use vstd::string::StringSliceAdditionalSpecFns;
use crate::decimal::{decimal, decimal_bytes, is_digit, DIGIT_ZERO};

verus! {

/// Directory prefix of every LED's control files; the LED's suffix completes it.
pub const BASE_PATH: &'static str = "/sys/class/leds/beaglebone:green:usr";

/// ASCII code of `/`, the path separator.
pub const SLASH: u8 = 47;

/// ASCII code of `[`, which opens the selected mode in a trigger report.
pub const OPEN_BRACKET: u8 = 91;

/// ASCII code of `]`, which closes the selected mode in a trigger report.
pub const CLOSE_BRACKET: u8 = 93;

/// LED identifier
#[derive(Clone, Copy, PartialEq, Eq, Structural, Debug)]
pub enum Number {
    /// First LED, by default is in heartbeat mode
    Zero,
    /// Second LED, unused and powered off by default
    One,
    /// Third LED, tracks CPU usage by default
    Three,
    /// Fourth LED, tracks disk I/O by default
    Two,
}

impl Number {
    /// The number that the driver gives this LED. It is not the order of the
    /// variants: `Three` is declared before `Two`.
    pub open spec fn index(self) -> nat {
        match self {
            Number::Zero => 0,
            Number::One => 1,
            Number::Two => 2,
            Number::Three => 3,
        }
    }

    /// The ASCII digit that ends this LED's directory name.
    pub open spec fn digit(self) -> u8 {
        (DIGIT_ZERO + self.index()) as u8
    }

    /// The ASCII digit that ends this LED's directory name.
    pub fn suffix(&self) -> (r: u8)
        ensures
            r == self.digit(),
    {
        match *self {
            Number::Zero => DIGIT_ZERO,
            Number::One => DIGIT_ZERO + 1,
            Number::Two => DIGIT_ZERO + 2,
            Number::Three => DIGIT_ZERO + 3,
        }
    }
}

/// LED trigger modes
#[derive(Clone, Copy, PartialEq, Eq, Structural, Debug)]
pub enum Trigger {
    /// Blinks with the system heartbeat
    Heartbeat,
    /// The driver's `none` trigger: brightness is set by hand
    Manual,
    /// On and off periodically, with configurable delays
    Timer,
}

impl Trigger {
    /// The mode's name in the driver's `trigger` file.
    pub open spec fn name(self) -> Seq<u8> {
        match self {
            Trigger::Heartbeat => "heartbeat".spec_bytes(),
            Trigger::Manual => "none".spec_bytes(),
            Trigger::Timer => "timer".spec_bytes(),
        }
    }

    /// The mode that carries the name `s`, if any does.
    pub open spec fn named(s: Seq<u8>) -> Option<Trigger> {
        if s == Trigger::Heartbeat.name() {
            Some(Trigger::Heartbeat)
        } else if s == Trigger::Manual.name() {
            Some(Trigger::Manual)
        } else if s == Trigger::Timer.name() {
            Some(Trigger::Timer)
        } else {
            None
        }
    }

    /// The mode that carries the name `s`, if any does.
    pub fn from_bytes(s: &[u8]) -> (r: Option<Trigger>)
        ensures
            r == Trigger::named(s@),
    {
        if bytes_equal(s, Trigger::Heartbeat.to_bytes()) {
            Some(Trigger::Heartbeat)
        } else if bytes_equal(s, Trigger::Manual.to_bytes()) {
            Some(Trigger::Manual)
        } else if bytes_equal(s, Trigger::Timer.to_bytes()) {
            Some(Trigger::Timer)
        } else {
            None
        }
    }

    /// The mode's name, as written to the `trigger` file.
    pub fn to_bytes(&self) -> (r: &'static [u8])
        ensures
            r@ == self.name(),
    {
        match *self {
            Trigger::Heartbeat => "heartbeat".as_bytes(),
            Trigger::Manual => "none".as_bytes(),
            Trigger::Timer => "timer".as_bytes(),
        }
    }
}

/// One whole-file write: `contents` replaces what the file at `path` held.
#[derive(Debug, PartialEq, Eq)]
pub struct FileWrite {
    pub path: Vec<u8>,
    pub contents: Vec<u8>,
}

impl View for FileWrite {
    type V = (Seq<u8>, Seq<u8>);

    open spec fn view(&self) -> (Seq<u8>, Seq<u8>) {
        (self.path@, self.contents@)
    }
}

/// The writes of a plan, as (path, contents) pairs, in the order they are made.
pub open spec fn plan_view(plan: Seq<FileWrite>) -> Seq<(Seq<u8>, Seq<u8>)> {
    plan.map_values(|w: FileWrite| w@)
}

/// The directory that holds the control files of LED `n`.
pub open spec fn led_root(n: Number) -> Seq<u8> {
    BASE_PATH.spec_bytes().push(n.digit())
}

/// The path of the control file `name` in the directory `root`.
pub open spec fn control_file(root: Seq<u8>, name: Seq<u8>) -> Seq<u8> {
    root.push(SLASH) + name
}

/// An LED controller
pub struct Led {
    root: Vec<u8>,
}

impl View for Led {
    type V = Seq<u8>;

    /// The directory that holds the LED's control files.
    closed spec fn view(&self) -> Seq<u8> {
        self.root@
    }
}

impl Led {
    /// The write that sets the trigger mode to `t`.
    pub open spec fn trigger_write(self, t: Trigger) -> (Seq<u8>, Seq<u8>) {
        (control_file(self@, "trigger".spec_bytes()), t.name())
    }

    /// The write of the number `v` to the control file `name`.
    pub open spec fn number_write(self, name: Seq<u8>, v: u32) -> (Seq<u8>, Seq<u8>) {
        (control_file(self@, name), decimal(v as nat))
    }

    /// The writes that make the LED blink: the timer trigger, then the two delays.
    pub open spec fn blink_plan(self, on_ms: u32, off_ms: u32) -> Seq<(Seq<u8>, Seq<u8>)> {
        seq![
            self.trigger_write(Trigger::Timer),
            self.number_write("delay_on".spec_bytes(), on_ms),
            self.number_write("delay_off".spec_bytes(), off_ms),
        ]
    }

    /// The writes that set the brightness: the manual trigger, then the level.
    pub open spec fn brightness_plan(self, brightness: u32) -> Seq<(Seq<u8>, Seq<u8>)> {
        seq![
            self.trigger_write(Trigger::Manual),
            self.number_write("brightness".spec_bytes(), brightness),
        ]
    }

    /// Create access to an LED
    pub fn new(number: Number) -> (r: Led)
        ensures
            r@ == led_root(number),
    {
        let mut root = vstd::slice::slice_to_vec(BASE_PATH.as_bytes());
        root.push(number.suffix());
        Led { root }
    }

    /// The directory that holds the LED's control files.
    pub fn root(&self) -> (r: &[u8])
        ensures
            r@ == self@,
    {
        self.root.as_slice()
    }

    /// The path of the control file `name` of this LED.
    fn file(&self, name: &'static str) -> (r: Vec<u8>)
        ensures
            r@ == control_file(self@, name.spec_bytes()),
    {
        let mut path = self.root.clone();
        path.push(SLASH);
        path.extend_from_slice(name.as_bytes());
        assert(path@ =~= control_file(self@, name.spec_bytes()));
        path
    }

    /// The path of the file that reports the LED's trigger mode.
    pub fn trigger_path(&self) -> (r: Vec<u8>)
        ensures
            r@ == control_file(self@, "trigger".spec_bytes()),
    {
        self.file("trigger")
    }

    /// The write that sets the trigger mode.
    fn trigger_write_of(&self, trigger: Trigger) -> (r: FileWrite)
        ensures
            r@ == self.trigger_write(trigger),
    {
        FileWrite {
            path: self.file("trigger"),
            contents: vstd::slice::slice_to_vec(trigger.to_bytes()),
        }
    }

    /// The write of the decimal text of `v` to the control file `name`.
    fn number_write_of(&self, name: &'static str, v: u32) -> (r: FileWrite)
        ensures
            r@ == self.number_write(name.spec_bytes(), v),
    {
        FileWrite { path: self.file(name), contents: decimal_bytes(v) }
    }

    /// Makes the LED blink: on for `on_ms`, then off for `off_ms`
    /// milliseconds, over and over. The writes select the timer trigger,
    /// then set the two delays.
    pub fn blink(&self, on_ms: u32, off_ms: u32) -> (r: Vec<FileWrite>)
        ensures
            plan_view(r@) == self.blink_plan(on_ms, off_ms),
    {
        let r = vec![
            self.trigger_write_of(Trigger::Timer),
            self.number_write_of("delay_on", on_ms),
            self.number_write_of("delay_off", off_ms),
        ];
        assert(plan_view(r@) =~= self.blink_plan(on_ms, off_ms));
        r
    }

    /// Changes the brightness of the LED. The writes select the manual
    /// trigger, without which the driver ignores the brightness, then set it.
    pub fn set_brightness(&self, brightness: u32) -> (r: Vec<FileWrite>)
        ensures
            plan_view(r@) == self.brightness_plan(brightness),
    {
        let r = vec![
            self.trigger_write_of(Trigger::Manual),
            self.number_write_of("brightness", brightness),
        ];
        assert(plan_view(r@) =~= self.brightness_plan(brightness));
        r
    }

    /// Turns on the LED
    pub fn set_high(&self) -> (r: Vec<FileWrite>)
        ensures
            plan_view(r@) == seq![
                self.trigger_write(Trigger::Manual),
                self.number_write("brightness".spec_bytes(), 1),
            ],
    {
        self.set_brightness(1)
    }

    /// Turns off the LED
    pub fn set_low(&self) -> (r: Vec<FileWrite>)
        ensures
            plan_view(r@) == seq![
                self.trigger_write(Trigger::Manual),
                self.number_write("brightness".spec_bytes(), 0),
            ],
    {
        self.set_brightness(0)
    }

    /// Changes the trigger mode of the LED
    pub fn set(&self, trigger: Trigger) -> (r: Vec<FileWrite>)
        ensures
            plan_view(r@) == seq![self.trigger_write(trigger)],
    {
        let r = vec![self.trigger_write_of(trigger)];
        assert(plan_view(r@) =~= seq![self.trigger_write(trigger)]);
        r
    }
}

/// The directory of every LED is the base path followed by that LED's digit
/// and nothing more: the byte before the digit is no digit, and different
/// LEDs get different directories.
pub proof fn lemma_root_ends_in_suffix(n: Number)
    ensures
        led_root(n) == BASE_PATH.spec_bytes().push(n.digit()),
        led_root(n).last() == n.digit(),
        n.digit() == DIGIT_ZERO + n.index(),
        n.index() <= 3,
        is_digit(n.digit()),
        !is_digit(led_root(n)[led_root(n).len() - 2]),
        forall|m: Number| led_root(m) == led_root(n) ==> m == n,
{
    reveal_strlit("/sys/class/leds/beaglebone:green:usr");
    vstd::string::is_ascii_spec_bytes(BASE_PATH);
    assert(vstd::string::is_ascii(BASE_PATH));
    assert forall|m: Number| led_root(m) == led_root(n) implies m == n by {
        if led_root(m) == led_root(n) {
            assert(led_root(m).last() == led_root(n).last());
        }
    }
}

/// Each mode's name leads back to that mode, and no name holds a bracket.
pub proof fn lemma_name_round_trip(t: Trigger)
    ensures
        Trigger::named(t.name()) == Some(t),
        !t.name().contains(OPEN_BRACKET),
        !t.name().contains(CLOSE_BRACKET),
{
    reveal_strlit("heartbeat");
    reveal_strlit("none");
    reveal_strlit("timer");
    vstd::string::is_ascii_spec_bytes("heartbeat");
    vstd::string::is_ascii_spec_bytes("none");
    vstd::string::is_ascii_spec_bytes("timer");
    assert(vstd::string::is_ascii("heartbeat"));
    assert(vstd::string::is_ascii("none"));
    assert(vstd::string::is_ascii("timer"));
}

/// Whether `a` and `b` hold the same bytes.
pub fn bytes_equal(a: &[u8], b: &[u8]) -> (r: bool)
    ensures
        r == (a@ == b@),
{
    if a.len() != b.len() {
        return false;
    }
    let mut i: usize = 0;
    while i < a.len()
        invariant
            a@.len() == b@.len(),
            i <= a@.len(),
            forall|k: int| 0 <= k < i ==> a@[k] == b@[k],
        decreases a@.len() - i,
    {
        if a[i] != b[i] {
            return false;
        }
        i = i + 1;
    }
    assert(a@ =~= b@);
    true
}

} // verus!
