//! What the embedding derive is told: the shape of the item it stands on
//! and the values of its attributes, and what follows from them.

use vstd::prelude::*;
use std::ops::Range;
use crate::ports::{answers_as, find_free_port, first_free, DEFAULT_RANGE_END, DEFAULT_RANGE_START};
use crate::text::{texts, to_chars};

verus! {

/// The value of an attribute.
#[derive(Debug)]
pub enum AttributeValue {
    /// `name = "value"`: the string.
    Text(String),
    /// `name = 123`: the digits in base ten.
    Integer(String),
    /// Anything else: no value follows the name, or it is no literal of
    /// these two kinds.
    Other,
}

/// One attribute of the item.
#[derive(Debug)]
pub struct Attribute {
    /// The attribute's path where it is a single identifier.
    pub name: Option<String>,
    /// What follows the path.
    pub value: AttributeValue,
}

/// What kind of item the derive stands on.
#[derive(Clone, Copy, Debug, PartialEq, Eq, Structural)]
pub enum InputShape {
    /// A struct without fields.
    UnitStruct,
    /// A struct with named or unnamed fields.
    OtherStruct,
    /// An enum.
    Enum,
    /// A union.
    Union,
}

/// The item that the derive stands on.
#[derive(Debug)]
pub struct DeriveInput {
    /// The item's attributes, in source order.
    pub attrs: Vec<Attribute>,
    /// The kind of item.
    pub shape: InputShape,
}

/// Why the derive's input is refused.
#[derive(Clone, Copy, Debug, PartialEq, Eq, Structural)]
pub enum EmbedError {
    /// The item is not a unit struct.
    NotUnitStruct,
    /// More than one `root` attribute.
    RepeatedRoot,
    /// More than one `output` attribute.
    RepeatedOutput,
    /// More than one `dev_server_port` attribute.
    RepeatedDevServerPort,
    /// More than one `crate_path` attribute.
    RepeatedCratePath,
    /// The `dev_server_port` attribute is no number from 0 to 65535.
    InvalidDevServerPort,
    /// No port was given and none of the default range is free.
    NoFreePort,
}

/// What the user is told about a refused input.
pub open spec fn error_message(error: EmbedError) -> Seq<char> {
    match error {
        EmbedError::NotUnitStruct => "Embed can only be derived for unit structs"@,
        EmbedError::RepeatedRoot => "When specifying a custom root directory, #[derive(vite_rs::Embed)] must only contain a single #[root = \"./\"] attribute."@,
        EmbedError::RepeatedOutput => "When specifying a custom output directory, #[derive(vite_rs::Embed)] must only contain a single #[output = \"./dist\"] attribute."@,
        EmbedError::RepeatedDevServerPort => "When specifying a custom dev server port, #[derive(vite_rs::Embed)] must only contain a single #[dev_server_port = \"<YOUR_PORT>\"] attribute."@,
        EmbedError::RepeatedCratePath => "When specifying a custom crate path, #[derive(vite_rs::Embed)] must only contain a single #[crate_path = \"crate_name\"] attribute."@,
        EmbedError::InvalidDevServerPort => "dev_server_port must be a valid unsigned integer (usize)."@,
        EmbedError::NoFreePort => "Could not find a free port for the ViteJS dev server"@,
    }
}

impl EmbedError {
    /// What the user is told about this error.
    pub fn message(&self) -> (message: String)
        ensures
            message@ == error_message(*self),
    {
        match self {
            EmbedError::NotUnitStruct => "Embed can only be derived for unit structs".to_owned(),
            EmbedError::RepeatedRoot => "When specifying a custom root directory, #[derive(vite_rs::Embed)] must only contain a single #[root = \"./\"] attribute.".to_owned(),
            EmbedError::RepeatedOutput => "When specifying a custom output directory, #[derive(vite_rs::Embed)] must only contain a single #[output = \"./dist\"] attribute.".to_owned(),
            EmbedError::RepeatedDevServerPort => "When specifying a custom dev server port, #[derive(vite_rs::Embed)] must only contain a single #[dev_server_port = \"<YOUR_PORT>\"] attribute.".to_owned(),
            EmbedError::RepeatedCratePath => "When specifying a custom crate path, #[derive(vite_rs::Embed)] must only contain a single #[crate_path = \"crate_name\"] attribute.".to_owned(),
            EmbedError::InvalidDevServerPort => "dev_server_port must be a valid unsigned integer (usize).".to_owned(),
            EmbedError::NoFreePort => "Could not find a free port for the ViteJS dev server".to_owned(),
        }
    }
}

/// The value that an attribute gives to `name`, if it gives one.
pub open spec fn value_for(attribute: Attribute, name: Seq<char>) -> Option<Seq<char>> {
    match attribute.name {
        Some(path) => if path@ == name {
            match attribute.value {
                AttributeValue::Text(text) => Some(text@),
                AttributeValue::Integer(digits) => Some(digits@),
                AttributeValue::Other => None,
            }
        } else {
            None
        },
        None => None,
    }
}

/// The values that the attributes give to `name`, in source order.
pub open spec fn attribute_values(attributes: Seq<Attribute>, name: Seq<char>) -> Seq<Seq<char>>
    decreases attributes.len(),
{
    if attributes.len() == 0 {
        Seq::empty()
    } else {
        let before = attribute_values(attributes.drop_last(), name);
        match value_for(attributes.last(), name) {
            Some(value) => before.push(value),
            None => before,
        }
    }
}

/// The single value of an attribute that may be given once: nothing where
/// it is not given, and the error where it is given more than once.
pub open spec fn single_value(values: Seq<Seq<char>>, repeated: EmbedError) -> Result<
    Option<Seq<char>>,
    EmbedError,
> {
    if values.len() > 1 {
        Err(repeated)
    } else if values.len() == 1 {
        Ok(Some(values[0]))
    } else {
        Ok(None)
    }
}

/// Whether `c` is a decimal digit.
pub open spec fn is_digit(c: char) -> bool {
    '0' <= c <= '9'
}

/// The number that a sequence of decimal digits stands for.
pub open spec fn decimal(digits: Seq<char>) -> int
    decreases digits.len(),
{
    if digits.len() == 0 {
        0
    } else {
        decimal(digits.drop_last()) * 10 + (digits.last() as int - '0' as int)
    }
}

/// A text without the `+` that it may start with.
pub open spec fn without_sign(text: Seq<char>) -> Seq<char> {
    if text.len() > 0 && text[0] == '+' {
        text.subrange(1, text.len() as int)
    } else {
        text
    }
}

/// Whether a text is made of decimal digits only.
pub open spec fn all_digits(text: Seq<char>) -> bool {
    forall|i: int| 0 <= i < text.len() ==> is_digit(#[trigger] text[i])
}

/// The port that a text stands for: an optional `+`, then one or more
/// decimal digits that make a number up to 65535.
pub open spec fn port_of_text(text: Seq<char>) -> Option<u16> {
    let digits = without_sign(text);
    if digits.len() > 0 && all_digits(digits) && decimal(digits) <= u16::MAX {
        Some(decimal(digits) as u16)
    } else {
        None
    }
}

proof fn decimal_grows(digits: Seq<char>, n: int)
    requires
        0 <= n <= digits.len(),
        forall|i: int| 0 <= i < digits.len() ==> is_digit(#[trigger] digits[i]),
    ensures
        0 <= decimal(digits.subrange(0, n)) <= decimal(digits),
    decreases digits.len() - n,
{
    if n < digits.len() {
        let longer = digits.subrange(0, n + 1);
        assert(longer.drop_last() =~= digits.subrange(0, n));
        assert(is_digit(digits[n]));
        decimal_prefix_nonnegative(digits, n);
        decimal_grows(digits, n + 1);
    } else {
        assert(digits.subrange(0, n) =~= digits);
        decimal_prefix_nonnegative(digits, n);
    }
}

proof fn decimal_prefix_nonnegative(digits: Seq<char>, n: int)
    requires
        0 <= n <= digits.len(),
        forall|i: int| 0 <= i < digits.len() ==> is_digit(#[trigger] digits[i]),
    ensures
        0 <= decimal(digits.subrange(0, n)),
    decreases n,
{
    if n > 0 {
        let prefix = digits.subrange(0, n);
        assert(prefix.drop_last() =~= digits.subrange(0, n - 1));
        assert(is_digit(digits[n - 1]));
        decimal_prefix_nonnegative(digits, n - 1);
    }
}

/// Reads a port number.
pub fn parse_port(text: &str) -> (port: Option<u16>)
    ensures
        port == port_of_text(text@),
{
    let chars = to_chars(text);
    let start: usize = if chars.len() > 0 && chars[0] == '+' {
        1
    } else {
        0
    };
    let ghost digits = chars@.subrange(start as int, chars@.len() as int);
    assert(digits == without_sign(text@)) by {
        if start == 0 {
            assert(chars@.subrange(0, chars@.len() as int) =~= chars@);
        }
    }
    if chars.len() == start {
        return None;
    }
    let mut value: u32 = 0;
    let mut i: usize = start;
    while i < chars.len()
        invariant
            start <= i <= chars@.len(),
            digits == chars@.subrange(start as int, chars@.len() as int),
            digits == without_sign(text@),
            digits.len() > 0,
            forall|j: int| 0 <= j < i - start ==> is_digit(#[trigger] digits[j]),
            value == decimal(digits.subrange(0, i - start)),
            value <= u16::MAX,
        decreases chars@.len() - i,
    {
        let c = chars[i];
        assert(c == digits[i - start]);
        if c < '0' || c > '9' {
            return None;
        }
        let digit = c as u32 - '0' as u32;
        let ghost longer = digits.subrange(0, i - start + 1);
        proof {
            assert(longer.drop_last() =~= digits.subrange(0, i - start));
            assert(longer.last() == c);
        }
        let grown = value * 10 + digit;
        if grown > 65535 {
            proof {
                if all_digits(digits) {
                    decimal_grows(digits, i - start + 1);
                }
            }
            return None;
        }
        value = grown;
        i += 1;
    }
    assert(digits.subrange(0, i - start) =~= digits);
    Some(value as u16)
}

/// The values that the item's attributes give to `attr_name`: the string
/// of each `name = "value"`, the digits of each `name = 123`, in source
/// order. Attributes of another name or another form give nothing.
pub fn find_attribute_values(ast: &DeriveInput, attr_name: &str) -> (values: Vec<String>)
    ensures
        texts(values@) == attribute_values(ast.attrs@, attr_name@),
{
    let wanted = attr_name.to_owned();
    let mut values: Vec<String> = Vec::new();
    let mut i: usize = 0;
    assert(texts(values@) =~= Seq::<Seq<char>>::empty());
    while i < ast.attrs.len()
        invariant
            i <= ast.attrs@.len(),
            wanted@ == attr_name@,
            texts(values@) == attribute_values(ast.attrs@.subrange(0, i as int), attr_name@),
        decreases ast.attrs@.len() - i,
    {
        let attribute = &ast.attrs[i];
        let ghost done = ast.attrs@.subrange(0, i as int + 1);
        proof {
            assert(done.drop_last() =~= ast.attrs@.subrange(0, i as int));
            assert(done.last() == *attribute);
        }
        let named = match &attribute.name {
            Some(path) => *path == wanted,
            None => false,
        };
        if named {
            let ghost before = texts(values@);
            match &attribute.value {
                AttributeValue::Text(text) => {
                    values.push(text.clone());
                    assert(texts(values@) =~= before.push(text@));
                },
                AttributeValue::Integer(digits) => {
                    values.push(digits.clone());
                    assert(texts(values@) =~= before.push(digits@));
                },
                AttributeValue::Other => {},
            }
        }
        i += 1;
    }
    assert(ast.attrs@.subrange(0, i as int) =~= ast.attrs@);
    values
}

/// Accepts a unit struct and refuses every other item.
pub fn ensure_unit_struct(ast: &DeriveInput) -> (accepted: Result<(), EmbedError>)
    ensures
        accepted == if ast.shape == InputShape::UnitStruct {
            Ok::<(), EmbedError>(())
        } else {
            Err::<(), EmbedError>(EmbedError::NotUnitStruct)
        },
{
    match ast.shape {
        InputShape::UnitStruct => Ok(()),
        _ => Err(EmbedError::NotUnitStruct),
    }
}

/// The characters of the value of an attribute that may be given once.
pub open spec fn single_text(value: Result<Option<String>, EmbedError>) -> Result<
    Option<Seq<char>>,
    EmbedError,
> {
    match value {
        Ok(Some(text)) => Ok(Some(text@)),
        Ok(None) => Ok(None),
        Err(error) => Err(error),
    }
}

/// The value of an attribute that may be given at most once; `repeated`
/// is the error for giving it more often.
pub fn single_attribute(ast: &DeriveInput, attr_name: &str, repeated: EmbedError) -> (value: Result<
    Option<String>,
    EmbedError,
>)
    ensures
        single_text(value) == single_value(attribute_values(ast.attrs@, attr_name@), repeated),
{
    let mut values = find_attribute_values(ast, attr_name);
    let ghost found = values@;
    if values.len() > 1 {
        Err(repeated)
    } else {
        let value = values.pop();
        proof {
            if value is Some {
                assert(texts(found)[0] == found[0]@);
            }
        }
        Ok(value)
    }
}

/// The root directory that the item names with `root`, as it is written;
/// nothing where it names none.
pub fn derive_root_dir(ast: &DeriveInput) -> (root: Result<Option<String>, EmbedError>)
    ensures
        single_text(root) == single_value(
            attribute_values(ast.attrs@, "root"@),
            EmbedError::RepeatedRoot,
        ),
{
    single_attribute(ast, "root", EmbedError::RepeatedRoot)
}

/// The output directory that the item names with `output`, as it is
/// written; `dist` where it names none.
pub fn derive_output_dir(ast: &DeriveInput) -> (output: Result<String, EmbedError>)
    ensures
        match single_value(attribute_values(ast.attrs@, "output"@), EmbedError::RepeatedOutput) {
            Ok(Some(text)) => output matches Ok(dir) && dir@ == text,
            Ok(None) => output matches Ok(dir) && dir@ == "dist"@,
            Err(error) => output == Err::<String, EmbedError>(error),
        },
{
    match single_attribute(ast, "output", EmbedError::RepeatedOutput) {
        Ok(Some(dir)) => Ok(dir),
        Ok(None) => Ok("dist".to_owned()),
        Err(error) => Err(error),
    }
}

/// The path of this crate as the generated code is to write it: what the
/// item names with `crate_path`, or `vite_rs`.
pub fn derive_crate_path(ast: &DeriveInput) -> (path: Result<String, EmbedError>)
    ensures
        match single_value(
            attribute_values(ast.attrs@, "crate_path"@),
            EmbedError::RepeatedCratePath,
        ) {
            Ok(Some(text)) => path matches Ok(name) && name@ == text,
            Ok(None) => path matches Ok(name) && name@ == "vite_rs"@,
            Err(error) => path == Err::<String, EmbedError>(error),
        },
{
    match single_attribute(ast, "crate_path", EmbedError::RepeatedCratePath) {
        Ok(Some(name)) => Ok(name),
        Ok(None) => Ok("vite_rs".to_owned()),
        Err(error) => Err(error),
    }
}

/// The port of the dev server, given the single value of
/// `dev_server_port` and, where there is none, the outcome of the scan of
/// the default range.
pub open spec fn dev_server_port(
    given: Result<Option<Seq<char>>, EmbedError>,
    scanned: Option<u16>,
) -> Result<u16, EmbedError> {
    match given {
        Err(error) => Err(error),
        Ok(Some(text)) => match port_of_text(text) {
            Some(port) => Ok(port),
            None => Err(EmbedError::InvalidDevServerPort),
        },
        Ok(None) => match scanned {
            Some(port) => Ok(port),
            None => Err(EmbedError::NoFreePort),
        },
    }
}

/// The port on which the dev server is to run. A port that the item names
/// with `dev_server_port` is taken as it is, without asking whether it is
/// free. Where the item names none, the default range is scanned for the
/// first port that `is_port_free` accepts.
pub fn derive_dev_server_port<F: Fn(u16) -> bool>(ast: &DeriveInput, is_port_free: F) -> (port:
    Result<u16, EmbedError>)
    requires
        forall|p: u16| #[trigger] is_port_free.requires((p,)),
    ensures
        attribute_values(ast.attrs@, "dev_server_port"@).len() > 0 ==> port == dev_server_port(
            single_value(
                attribute_values(ast.attrs@, "dev_server_port"@),
                EmbedError::RepeatedDevServerPort,
            ),
            None,
        ),
        attribute_values(ast.attrs@, "dev_server_port"@).len() == 0 ==> match port {
            Ok(p) => DEFAULT_RANGE_START <= p < DEFAULT_RANGE_END && is_port_free.ensures(
                (p,),
                true,
            ) && forall|q: u16|
                DEFAULT_RANGE_START <= q < p ==> #[trigger] is_port_free.ensures((q,), false),
            Err(error) => error == EmbedError::NoFreePort && forall|q: u16|
                DEFAULT_RANGE_START <= q < DEFAULT_RANGE_END ==> #[trigger] is_port_free.ensures(
                    (q,),
                    false,
                ),
        },
        forall|free: spec_fn(u16) -> bool| #[trigger]
            answers_as(is_port_free, free, DEFAULT_RANGE_START as int, DEFAULT_RANGE_END as int)
                ==> port == dev_server_port(
                single_value(
                    attribute_values(ast.attrs@, "dev_server_port"@),
                    EmbedError::RepeatedDevServerPort,
                ),
                first_free(free, DEFAULT_RANGE_START as int, DEFAULT_RANGE_END as int),
            ),
{
    match single_attribute(ast, "dev_server_port", EmbedError::RepeatedDevServerPort) {
        Err(error) => Err(error),
        Ok(Some(text)) => match parse_port(text.as_str()) {
            Some(port) => Ok(port),
            None => Err(EmbedError::InvalidDevServerPort),
        },
        Ok(None) => match find_free_port(
            Range { start: DEFAULT_RANGE_START, end: DEFAULT_RANGE_END },
            is_port_free,
        ) {
            Some(port) => Ok(port),
            None => Err(EmbedError::NoFreePort),
        },
    }
}

} // verus!
