//! The control socket: command messages between the `vellum` client and the
//! running overlay, status replies, and the socket's name.

use vstd::prelude::*;
use vstd::string::*;
use vstd::utf8::*;

use color::DynamicColor;

verus! {

#[verifier::external_type_specification]
#[verifier::external_body]
pub struct ExDynamicColor(DynamicColor);

/// The colour that `color::parse_color` reads from CSS colour syntax, if it
/// reads one.
pub uninterp spec fn parsed_css_color(text: Seq<char>) -> Option<DynamicColor>;

/// Reads a CSS colour with `color::parse_color`; its result depends only on
/// the text. What it accepts is not stated here.
#[verifier::external_body]
fn parse_css_color(text: &str) -> (res: Option<DynamicColor>)
    ensures
        res == parsed_css_color(text@),
{
    color::parse_color(text).ok()
}

/// The CSS text that `DynamicColor`'s `Display` writes for a colour.
pub uninterp spec fn displayed_css_color(color: DynamicColor) -> Seq<char>;

/// Writes a colour in CSS syntax with `DynamicColor`'s `Display`; the text
/// depends only on the colour. What it looks like is not stated here.
#[verifier::external_body]
fn css_color_text(color: &DynamicColor) -> (res: String)
    ensures
        res@ == displayed_css_color(*color),
{
    format!("{color}")
}

/// Reads bytes as UTF-8 text with `std::str::from_utf8`: the text when the
/// bytes are valid UTF-8, nothing otherwise.
#[verifier::external_body]
fn str_from_utf8(bytes: &[u8]) -> (res: Option<&str>)
    ensures
        match res {
            Some(text) => valid_utf8(bytes@) && text.spec_bytes() == bytes@,
            None => !valid_utf8(bytes@),
        },
{
    std::str::from_utf8(bytes).ok()
}

/// A request to the running overlay.
#[derive(Debug, Clone, Copy)]
pub enum Command {
    Toggle,
    Activate,
    Deactivate,
    Clear,
    ClearAndDeactivate,
    IsActive,
    SetColor { color: DynamicColor },
    IsTextEditing,
    Exit,
}

/// The message of a command without arguments.
pub open spec fn unit_command_name(command: Command) -> Option<Seq<char>> {
    match command {
        Command::Toggle => Some("toggle"@),
        Command::Activate => Some("activate"@),
        Command::Deactivate => Some("deactivate"@),
        Command::Clear => Some("clear"@),
        Command::ClearAndDeactivate => Some("clear_and_deactivate"@),
        Command::IsActive => Some("is_active"@),
        Command::IsTextEditing => Some("is_text_editing"@),
        Command::Exit => Some("exit"@),
        Command::SetColor { .. } => None,
    }
}

/// How bytes read as a colour: refused unless UTF-8, then read as CSS.
pub open spec fn color_from_utf8_spec(bytes: Seq<u8>) -> Result<DynamicColor, Seq<char>> {
    if !valid_utf8(bytes) {
        Err("expected color to be valid utf8"@)
    } else {
        match parsed_css_color(decode_utf8(bytes)) {
            Some(color) => Ok(color),
            None => Err("invalid color"@),
        }
    }
}

/// Whether a result agrees with its description, errors compared as text.
pub open spec fn result_matches<T>(res: Result<T, &str>, expected: Result<T, Seq<char>>) -> bool {
    match (res, expected) {
        (Ok(a), Ok(b)) => a == b,
        (Err(a), Err(b)) => a@ == b,
        _ => false,
    }
}

/// Reads a colour given as bytes.
pub fn color_from_utf8(message: &[u8]) -> (res: Result<DynamicColor, &'static str>)
    ensures
        result_matches(res, color_from_utf8_spec(message@)),
{
    broadcast use group_utf8_lib;

    match str_from_utf8(message) {
        None => Err("expected color to be valid utf8"),
        Some(text) => {
            proof {
                assert(text@ == decode_utf8(message@));
            }
            match parse_css_color(text) {
                Some(color) => Ok(color),
                None => Err("invalid color"),
            }
        },
    }
}

/// Whether two byte strings are equal.
pub(crate) fn bytes_equal(a: &[u8], b: &[u8]) -> (res: bool)
    ensures
        res == (a@ == b@),
{
    if a.len() != b.len() {
        return false;
    }
    let mut i: usize = 0;
    while i < a.len()
        invariant
            a@.len() == b@.len(),
            i <= a@.len(),
            forall|j: int| 0 <= j < i ==> a@[j] == b@[j],
        decreases a@.len() - i,
    {
        if a[i] != b[i] {
            return false;
        }
        i = i + 1;
    }
    proof {
        assert(a@ =~= b@);
    }
    true
}

/// How a message reads as a command: each command without arguments by its
/// name, a colour after `set_color=` when the rest is UTF-8 text in CSS
/// colour syntax; anything else is refused with the reason.
pub open spec fn deserialize_spec(message: Seq<u8>) -> Result<Command, Seq<char>> {
    if message == "toggle".spec_bytes() {
        Ok(Command::Toggle)
    } else if message == "activate".spec_bytes() {
        Ok(Command::Activate)
    } else if message == "deactivate".spec_bytes() {
        Ok(Command::Deactivate)
    } else if message == "clear".spec_bytes() {
        Ok(Command::Clear)
    } else if message == "clear_and_deactivate".spec_bytes() {
        Ok(Command::ClearAndDeactivate)
    } else if message == "is_active".spec_bytes() {
        Ok(Command::IsActive)
    } else if message == "is_text_editing".spec_bytes() {
        Ok(Command::IsTextEditing)
    } else if message == "exit".spec_bytes() {
        Ok(Command::Exit)
    } else if message.len() >= "set_color=".spec_bytes().len() && message.subrange(
        0,
        "set_color=".spec_bytes().len() as int,
    ) == "set_color=".spec_bytes() {
        let rest = message.subrange("set_color=".spec_bytes().len() as int, message.len() as int);
        match color_from_utf8_spec(rest) {
            Ok(color) => Ok(Command::SetColor { color }),
            Err(reason) => Err(reason),
        }
    } else {
        Err("invalid command"@)
    }
}

/// The control message that sets the colour written as `color_text`.
pub fn set_color_message(color_text: &str) -> (res: String)
    ensures
        res@ == "set_color="@ + color_text@,
{
    "set_color=".to_owned().concat(color_text)
}

impl Command {
    /// Reads a command from a control message.
    pub fn deserialize(message: &[u8]) -> (res: Result<Command, &'static str>)
        ensures
            result_matches(res, deserialize_spec(message@)),
    {
        if bytes_equal(message, "toggle".as_bytes()) {
            Ok(Command::Toggle)
        } else if bytes_equal(message, "activate".as_bytes()) {
            Ok(Command::Activate)
        } else if bytes_equal(message, "deactivate".as_bytes()) {
            Ok(Command::Deactivate)
        } else if bytes_equal(message, "clear".as_bytes()) {
            Ok(Command::Clear)
        } else if bytes_equal(message, "clear_and_deactivate".as_bytes()) {
            Ok(Command::ClearAndDeactivate)
        } else if bytes_equal(message, "is_active".as_bytes()) {
            Ok(Command::IsActive)
        } else if bytes_equal(message, "is_text_editing".as_bytes()) {
            Ok(Command::IsTextEditing)
        } else if bytes_equal(message, "exit".as_bytes()) {
            Ok(Command::Exit)
        } else {
            let prefix = "set_color=".as_bytes();
            if message.len() >= prefix.len() {
                let (head, rest) = message.split_at(prefix.len());
                if bytes_equal(head, prefix) {
                    return match color_from_utf8(rest) {
                        Ok(color) => Ok(Command::SetColor { color }),
                        Err(reason) => Err(reason),
                    };
                }
            }
            Err("invalid command")
        }
    }

    /// Writes a command as a control message.
    pub fn serialize(&self) -> (res: String)
        ensures
            unit_command_name(*self) matches Some(name) ==> res@ == name,
            self matches Command::SetColor { color } ==> res@ == "set_color="@ + displayed_css_color(
                *color,
            ),
    {
        match self {
            Command::Toggle => "toggle".to_owned(),
            Command::Activate => "activate".to_owned(),
            Command::Deactivate => "deactivate".to_owned(),
            Command::Clear => "clear".to_owned(),
            Command::ClearAndDeactivate => "clear_and_deactivate".to_owned(),
            Command::IsActive => "is_active".to_owned(),
            Command::SetColor { color } => {
                let text = css_color_text(color);
                set_color_message(text.as_str())
            },
            Command::IsTextEditing => "is_text_editing".to_owned(),
            Command::Exit => "exit".to_owned(),
        }
    }
}

/// The overlay reads every command without arguments back from the message
/// the client writes for it.
pub proof fn lemma_unit_command_roundtrip(command: Command)
    requires
        unit_command_name(command) is Some,
    ensures
        deserialize_spec(encode_utf8(unit_command_name(command)->0)) == Ok::<Command, Seq<char>>(command),
{
    broadcast use group_utf8_lib;

    reveal_strlit("toggle");
    reveal_strlit("activate");
    reveal_strlit("deactivate");
    reveal_strlit("clear");
    reveal_strlit("clear_and_deactivate");
    reveal_strlit("is_active");
    reveal_strlit("is_text_editing");
    reveal_strlit("exit");
    assert(is_ascii_chars("toggle"@));
    assert(is_ascii_chars("activate"@));
    assert(is_ascii_chars("deactivate"@));
    assert(is_ascii_chars("clear"@));
    assert(is_ascii_chars("clear_and_deactivate"@));
    assert(is_ascii_chars("is_active"@));
    assert(is_ascii_chars("is_text_editing"@));
    assert(is_ascii_chars("exit"@));
}

proof fn lemma_encode_concat(a: Seq<char>, b: Seq<char>)
    ensures
        encode_utf8(a + b) == encode_utf8(a) + encode_utf8(b),
    decreases a.len(),
{
    if a.len() == 0 {
        assert(a + b =~= b);
    } else {
        lemma_encode_concat(a.drop_first(), b);
        assert((a + b).drop_first() =~= a.drop_first() + b);
        assert((a + b)[0] == a[0]);
    }
}

/// A `set_color=` message whose rest is a CSS colour reads as that colour.
pub proof fn lemma_set_color_message(text: Seq<char>)
    requires
        parsed_css_color(text) is Some,
    ensures
        deserialize_spec(encode_utf8("set_color="@ + text)) == Ok::<Command, Seq<char>>(
            Command::SetColor { color: parsed_css_color(text)->0 },
        ),
{
    broadcast use group_utf8_lib;

    reveal_strlit("toggle");
    reveal_strlit("activate");
    reveal_strlit("deactivate");
    reveal_strlit("clear");
    reveal_strlit("clear_and_deactivate");
    reveal_strlit("is_active");
    reveal_strlit("is_text_editing");
    reveal_strlit("exit");
    reveal_strlit("set_color=");
    let prefix = "set_color="@;
    assert(is_ascii_chars(prefix));
    lemma_encode_concat(prefix, text);
    let message = encode_utf8(prefix + text);
    let head = encode_utf8(prefix);
    assert(head.len() == 10);
    assert(message[0] == head[0]);
    assert(message.subrange(0, 10) =~= head);
    assert(message.subrange(10, message.len() as int) =~= encode_utf8(text));
    assert(is_ascii_chars("toggle"@));
    assert(is_ascii_chars("activate"@));
    assert(is_ascii_chars("deactivate"@));
    assert(is_ascii_chars("clear"@));
    assert(is_ascii_chars("clear_and_deactivate"@));
    assert(is_ascii_chars("is_active"@));
    assert(is_ascii_chars("is_text_editing"@));
    assert(is_ascii_chars("exit"@));
    assert(message != "toggle".spec_bytes()) by {
        assert("toggle".spec_bytes()[0] != message[0]);
    }
    assert(message != "activate".spec_bytes()) by {
        assert("activate".spec_bytes()[0] != message[0]);
    }
    assert(message != "deactivate".spec_bytes()) by {
        assert("deactivate".spec_bytes()[0] != message[0]);
    }
    assert(message != "clear".spec_bytes()) by {
        assert("clear".spec_bytes()[0] != message[0]);
    }
    assert(message != "clear_and_deactivate".spec_bytes()) by {
        assert("clear_and_deactivate".spec_bytes()[0] != message[0]);
    }
    assert(message != "is_active".spec_bytes()) by {
        assert("is_active".spec_bytes()[0] != message[0]);
    }
    assert(message != "is_text_editing".spec_bytes()) by {
        assert("is_text_editing".spec_bytes()[0] != message[0]);
    }
    assert(message != "exit".spec_bytes()) by {
        assert("exit".spec_bytes()[0] != message[0]);
    }
}

/// The longest control message the overlay reads.
pub const MAX_SOCKET_MESSAGE: usize = 4096;

/// What the running overlay does for a control command.
#[derive(Debug, Clone, Copy)]
pub enum ControlAction {
    /// Enter drawing mode, or leave it.
    ToggleInput,
    /// Enter (`true`) or leave (`false`) drawing mode.
    SetInputActive(bool),
    /// Remove all annotations.
    Clear,
    /// Remove all annotations, then leave drawing mode.
    ClearAndDeactivate,
    /// Draw with this colour.
    SetColor(DynamicColor),
    /// Answer whether drawing mode is active.
    ReplyActive,
    /// Answer whether text is being edited.
    ReplyTextEditing,
    /// Quit.
    Exit,
}

/// Why a control message is ignored.
#[derive(Debug, Clone, Copy)]
pub enum ControlError {
    /// The message is longer than `MAX_SOCKET_MESSAGE` bytes.
    TooLong,
    /// The message is no command, for this reason.
    Invalid(&'static str),
}

/// The action for each command.
pub open spec fn control_action_spec(command: Command) -> ControlAction {
    match command {
        Command::Toggle => ControlAction::ToggleInput,
        Command::Activate => ControlAction::SetInputActive(true),
        Command::Deactivate => ControlAction::SetInputActive(false),
        Command::Clear => ControlAction::Clear,
        Command::ClearAndDeactivate => ControlAction::ClearAndDeactivate,
        Command::IsActive => ControlAction::ReplyActive,
        Command::SetColor { color } => ControlAction::SetColor(color),
        Command::IsTextEditing => ControlAction::ReplyTextEditing,
        Command::Exit => ControlAction::Exit,
    }
}

/// Each control command maps to the action of its own meaning: only
/// `clear_and_deactivate` also leaves drawing mode after clearing, plain
/// `clear` leaves the mode as it is, only `activate` and `deactivate` set the
/// mode and only `toggle` flips it, and a colour command keeps its colour.
pub proof fn lemma_control_action_meaning(command: Command)
    ensures
        (control_action_spec(command) == ControlAction::Clear) <==> command == Command::Clear,
        (control_action_spec(command) == ControlAction::ClearAndDeactivate) <==> command
            == Command::ClearAndDeactivate,
        (control_action_spec(command) == ControlAction::ToggleInput) <==> command == Command::Toggle,
        (control_action_spec(command) == ControlAction::SetInputActive(true)) <==> command
            == Command::Activate,
        (control_action_spec(command) == ControlAction::SetInputActive(false)) <==> command
            == Command::Deactivate,
        (control_action_spec(command) == ControlAction::ReplyActive) <==> command == Command::IsActive,
        (control_action_spec(command) == ControlAction::ReplyTextEditing) <==> command
            == Command::IsTextEditing,
        (control_action_spec(command) == ControlAction::Exit) <==> command == Command::Exit,
        command matches Command::SetColor { color } ==> control_action_spec(command)
            == ControlAction::SetColor(color),
{
}

/// What the overlay does for a received control message: nothing for a
/// message longer than `MAX_SOCKET_MESSAGE` bytes or one that is no command,
/// else the command's action.
pub fn control_action(message: &[u8]) -> (res: Result<ControlAction, ControlError>)
    ensures
        message@.len() > MAX_SOCKET_MESSAGE ==> res matches Err(ControlError::TooLong),
        message@.len() <= MAX_SOCKET_MESSAGE ==> match deserialize_spec(message@) {
            Ok(command) => res == Ok::<ControlAction, ControlError>(control_action_spec(command)),
            Err(reason) => res matches Err(ControlError::Invalid(r)) && r@ == reason,
        },
{
    if message.len() > MAX_SOCKET_MESSAGE {
        return Err(ControlError::TooLong);
    }
    match Command::deserialize(message) {
        Err(reason) => Err(ControlError::Invalid(reason)),
        Ok(command) => Ok(
            match command {
                Command::Toggle => ControlAction::ToggleInput,
                Command::Activate => ControlAction::SetInputActive(true),
                Command::Deactivate => ControlAction::SetInputActive(false),
                Command::Clear => ControlAction::Clear,
                Command::ClearAndDeactivate => ControlAction::ClearAndDeactivate,
                Command::IsActive => ControlAction::ReplyActive,
                Command::SetColor { color } => ControlAction::SetColor(color),
                Command::IsTextEditing => ControlAction::ReplyTextEditing,
                Command::Exit => ControlAction::Exit,
            },
        ),
    }
}

/// The overlay's answer to a status query.
pub fn status_reply(active: bool) -> (res: &'static [u8])
    ensures
        active ==> res@ == "true".spec_bytes(),
        !active ==> res@ == "false".spec_bytes(),
{
    if active {
        "true".as_bytes()
    } else {
        "false".as_bytes()
    }
}

/// Reads the overlay's answer to a status query: `true` or `false`, anything
/// else being an invalid status.
pub fn parse_status(reply: &[u8]) -> (res: Option<bool>)
    ensures
        res == (if reply@ == "true".spec_bytes() {
            Some(true)
        } else if reply@ == "false".spec_bytes() {
            Some(false)
        } else {
            None::<bool>
        }),
{
    if bytes_equal(reply, "true".as_bytes()) {
        Some(true)
    } else if bytes_equal(reply, "false".as_bytes()) {
        Some(false)
    } else {
        None
    }
}

/// A client reads back the status the overlay answers.
pub proof fn lemma_status_roundtrip(active: bool)
    ensures
        (if active {
            "true".spec_bytes()
        } else {
            "false".spec_bytes()
        }) == "true".spec_bytes() <==> active,
{
    broadcast use group_utf8_lib;

    reveal_strlit("true");
    reveal_strlit("false");
    assert(is_ascii_chars("true"@));
    assert(is_ascii_chars("false"@));
}

/// The FNV-1a offset basis.
pub const FNV_OFFSET: u64 = 0xcbf29ce484222325;

/// The FNV-1a prime.
pub const FNV_PRIME: u64 = 0x100000001b3;

/// The 64-bit FNV-1a hash of `bytes`.
pub open spec fn fnv1a(bytes: Seq<u8>) -> u64
    decreases bytes.len(),
{
    if bytes.len() == 0 {
        FNV_OFFSET
    } else {
        (fnv1a(bytes.drop_last()) ^ (bytes.last() as u64)).wrapping_mul(FNV_PRIME)
    }
}

/// Hashes a socket path with 64-bit FNV-1a.
pub fn fnv1a_hash(bytes: &[u8]) -> (res: u64)
    ensures
        res == fnv1a(bytes@),
{
    let mut hash: u64 = FNV_OFFSET;
    let mut i: usize = 0;
    while i < bytes.len()
        invariant
            i <= bytes@.len(),
            hash == fnv1a(bytes@.take(i as int)),
        decreases bytes@.len() - i,
    {
        proof {
            assert(bytes@.take(i as int + 1).drop_last() =~= bytes@.take(i as int));
        }
        hash = (hash ^ (bytes[i] as u64)).wrapping_mul(FNV_PRIME);
        i = i + 1;
    }
    proof {
        assert(bytes@.take(bytes@.len() as int) =~= bytes@);
    }
    hash
}

/// The ASCII digit for a value below 16, lower-case letters past 9.
pub open spec fn hex_digit(value: u64) -> u8 {
    if value < 10 {
        (48 + value) as u8
    } else {
        (87 + value) as u8
    }
}

/// `value` as 16 lower-case hexadecimal digits, most significant first.
pub open spec fn hex16(value: u64) -> Seq<u8> {
    Seq::new(16, |i: int| hex_digit((value >> ((60 - 4 * i) as u64)) & 0xf))
}

/// The decimal digits of `value`, most significant first.
pub open spec fn decimal(value: nat) -> Seq<u8>
    decreases value,
{
    if value < 10 {
        seq![(48 + value) as u8]
    } else {
        decimal(value / 10).push((48 + value % 10) as u8)
    }
}

fn push_decimal(out: &mut Vec<u8>, value: u32)
    ensures
        final(out)@ == old(out)@ + decimal(value as nat),
    decreases value,
{
    if value < 10 {
        out.push((48 + value) as u8);
        proof {
            assert(final(out)@ =~= old(out)@ + decimal(value as nat));
        }
    } else {
        push_decimal(out, value / 10);
        out.push((48 + value % 10) as u8);
        proof {
            assert(out@ =~= old(out)@ + decimal(value as nat));
        }
    }
}

/// The name of the control socket: `vellum-`, the user id in decimal, `-`,
/// and the FNV-1a hash of the socket's path as 16 hexadecimal digits.
pub open spec fn control_socket_name_spec(path: Seq<u8>, uid: u32) -> Seq<u8> {
    "vellum-".spec_bytes() + decimal(uid as nat) + "-".spec_bytes() + hex16(fnv1a(path))
}

/// Ten raised to `n`.
pub open spec fn pow10(n: nat) -> nat
    decreases n,
{
    if n == 0 {
        1
    } else {
        10 * pow10((n - 1) as nat)
    }
}

/// A number below `10^digits` has at most `digits` decimal digits.
proof fn lemma_decimal_len(value: nat, digits: nat)
    requires
        digits >= 1,
        value < pow10(digits),
    ensures
        decimal(value).len() <= digits,
        decimal(value).len() >= 1,
    decreases value,
{
    if value >= 10 {
        assert(pow10(0) == 1);
        assert(pow10(1) == 10);
        assert(pow10(digits) == 10 * pow10((digits - 1) as nat));
        lemma_decimal_len(value / 10, (digits - 1) as nat);
    }
}

/// A control socket's name is at most 34 bytes, whatever the path and the
/// user: it always fits an abstract socket address.
pub proof fn lemma_control_socket_name_short(path: Seq<u8>, uid: u32)
    ensures
        control_socket_name_spec(path, uid).len() <= 34,
{
    broadcast use group_utf8_lib;

    reveal_strlit("vellum-");
    reveal_strlit("-");
    assert("vellum-"@.len() == 7);
    assert(is_ascii_chars("vellum-"@));
    assert(is_ascii_chars("-"@));
    assert(pow10(10) == 10000000000) by {
        reveal_with_fuel(pow10, 11);
    }
    lemma_decimal_len(uid as nat, 10);
}

/// The control socket's name for the canonical path of the Wayland display
/// socket and the effective user id. It stays the same for a display and a
/// user, whichever build runs.
pub fn control_socket_name(path: &[u8], uid: u32) -> (res: Vec<u8>)
    ensures
        res@ == control_socket_name_spec(path@, uid),
{
    let hash = fnv1a_hash(path);
    let mut out: Vec<u8> = Vec::new();
    let prefix = "vellum-".as_bytes();
    let mut i: usize = 0;
    while i < prefix.len()
        invariant
            i <= prefix@.len(),
            out@ == prefix@.take(i as int),
        decreases prefix@.len() - i,
    {
        out.push(prefix[i]);
        proof {
            assert(out@ =~= prefix@.take(i as int + 1));
        }
        i = i + 1;
    }
    proof {
        assert(prefix@.take(prefix@.len() as int) =~= prefix@);
    }
    push_decimal(&mut out, uid);
    let dash = "-".as_bytes();
    let ghost before_dash = out@;
    if dash.len() > 0 {
        out.push(dash[0]);
    }
    proof {
        broadcast use group_utf8_lib;
        reveal_strlit("-");
        assert(is_ascii_chars("-"@));
        assert(dash@.len() == 1);
        assert(out@ =~= before_dash + dash@);
    }
    let ghost before_hex = out@;
    let mut k: usize = 0;
    while k < 16
        invariant
            k <= 16,
            out@ == before_hex + hex16(hash).take(k as int),
        decreases 16 - k,
    {
        let shift = (60 - 4 * k) as u64;
        let nibble = (hash >> shift) & 0xf;
        assert(nibble < 16) by (bit_vector)
            requires
                nibble == (hash >> shift) & 0xf,
        ;
        let digit: u8 = if nibble < 10 {
            (48 + nibble) as u8
        } else {
            (87 + nibble) as u8
        };
        out.push(digit);
        proof {
            assert(hex16(hash)[k as int] == digit);
            assert(out@ =~= before_hex + hex16(hash).take(k as int + 1));
        }
        k = k + 1;
    }
    proof {
        assert(hex16(hash).take(16) =~= hex16(hash));
    }
    out
}

} // verus!
