//! The value types that plugins declare for variables, arguments and
//! configuration options.

use vstd::prelude::*;

use crate::error::PluginLoadError;
use crate::text::{
    ascii_lower_seq, concat3, decimal_text, i32_to_decimal, owned, str_eq, to_ascii_lower,
};

verus! {

/// The spelling of each value type, as plugins write it and as it is shown.
pub open spec fn kind_name(index: int) -> Seq<char> {
    if index == 0 {
        seq!['b', 'o', 'o', 'l']
    } else if index == 1 {
        seq!['i', 'n', 't']
    } else if index == 2 {
        seq!['f', 'l', 'o', 'a', 't']
    } else if index == 3 {
        seq!['s', 't', 'r', 'i', 'n', 'g']
    } else {
        seq!['e', 'n', 'u', 'm']
    }
}

/// The index of the value type spelled `name`, if any.
pub open spec fn type_index_of_name(name: Seq<char>) -> Option<int> {
    if name == kind_name(0) {
        Some(0)
    } else if name == kind_name(1) {
        Some(1)
    } else if name == kind_name(2) {
        Some(2)
    } else if name == kind_name(3) {
        Some(3)
    } else if name == kind_name(4) {
        Some(4)
    } else {
        None
    }
}

/// The index of `name` among the five type names, compared as `==` on strings.
fn index_of_kind_name(name: &str) -> (r: Option<u8>)
    ensures
        match r {
            Some(i) => type_index_of_name(name@) == Some(i as int),
            None => type_index_of_name(name@) is None,
        },
{
    proof {
        reveal_strlit("bool");
        reveal_strlit("int");
        reveal_strlit("float");
        reveal_strlit("string");
        reveal_strlit("enum");
    }
    let b = "bool";
    let i = "int";
    let f = "float";
    let s = "string";
    let e = "enum";
    assert(b@ =~= kind_name(0));
    assert(i@ =~= kind_name(1));
    assert(f@ =~= kind_name(2));
    assert(s@ =~= kind_name(3));
    assert(e@ =~= kind_name(4));
    if str_eq(name, b) {
        Some(0)
    } else if str_eq(name, i) {
        Some(1)
    } else if str_eq(name, f) {
        Some(2)
    } else if str_eq(name, s) {
        Some(3)
    } else if str_eq(name, e) {
        Some(4)
    } else {
        None
    }
}

/// The name of the value type with the given index.
fn kind_name_string(index: u8) -> (r: String)
    requires
        index <= 4,
    ensures
        r@ == kind_name(index as int),
{
    proof {
        reveal_strlit("bool");
        reveal_strlit("int");
        reveal_strlit("float");
        reveal_strlit("string");
        reveal_strlit("enum");
    }
    if index == 0 {
        owned("bool")
    } else if index == 1 {
        owned("int")
    } else if index == 2 {
        owned("float")
    } else if index == 3 {
        owned("string")
    } else {
        owned("enum")
    }
}

/// A value type, as a plugin author declares it.
#[derive(Clone, Copy, Debug, PartialEq, Eq, Structural)]
pub enum Type {
    Bool,
    Int,
    Float,
    String,
    Enum,
}

impl Type {
    /// The number that stands for this type on the plugin interface.
    pub open spec fn index(self) -> int {
        match self {
            Type::Bool => 0,
            Type::Int => 1,
            Type::Float => 2,
            Type::String => 3,
            Type::Enum => 4,
        }
    }

    /// The type that the number `index` stands for.
    pub open spec fn of_index(index: int) -> Type {
        if index == 0 {
            Type::Bool
        } else if index == 1 {
            Type::Int
        } else if index == 2 {
            Type::Float
        } else if index == 3 {
            Type::String
        } else {
            Type::Enum
        }
    }

    /// The number that stands for this type on the plugin interface.
    pub fn to_i32(self) -> (r: i32)
        ensures
            r == self.index(),
    {
        match self {
            Type::Bool => 0,
            Type::Int => 1,
            Type::Float => 2,
            Type::String => 3,
            Type::Enum => 4,
        }
    }

    /// The type that a number stands for: the numbers 0 to 4 stand for the
    /// five data types of the plugin interface, `enum` among them. It is
    /// defined for those numbers only.
    pub fn try_from_i32(value: i32) -> (r: Result<Type, ()>)
        requires
            0 <= value <= 4,
        ensures
            r == Ok::<Type, ()>(Type::of_index(value as int)),
    {
        if value == 0 {
            Ok(Type::Bool)
        } else if value == 1 {
            Ok(Type::Int)
        } else if value == 2 {
            Ok(Type::Float)
        } else if value == 3 {
            Ok(Type::String)
        } else {
            Ok(Type::Enum)
        }
    }

    /// The type that a name stands for, ignoring the case of letters. It is
    /// defined for the five type names only.
    pub fn try_from_str(value: &str) -> (r: Result<Type, ()>)
        requires
            type_index_of_name(ascii_lower_seq(value@)) is Some,
        ensures
            r == Ok::<Type, ()>(Type::of_index(type_index_of_name(ascii_lower_seq(value@))->0)),
    {
        let lower = to_ascii_lower(value);
        let i = index_of_kind_name(lower.as_str());
        match i {
            Some(0) => Ok(Type::Bool),
            Some(1) => Ok(Type::Int),
            Some(2) => Ok(Type::Float),
            Some(3) => Ok(Type::String),
            _ => Ok(Type::Enum),
        }
    }
}

/// The value type of a variable, action argument or configuration option of
/// a loaded plugin.
#[derive(Clone, Copy, Debug, PartialEq, Eq, Structural)]
pub enum PluginDataType {
    Bool,
    Int,
    Float,
    String,
    Enum,
}

/// The message of the error for a type number that stands for no type.
pub open spec fn bad_type_index_message(value: int) -> Seq<char> {
    seq!['N', 'o', ' ', 'p', 'l', 'u', 'g', 'i', 'n', ' ', 'd', 'a', 't', 'a', ' ', 't', 'y', 'p',
        'e', ' ', 'w', 'i', 't', 'h', ' ', 'i', 'n', 'd', 'e', 'x', ' ', '\''] + decimal_text(value)
        + seq!['\'']
}

impl PluginDataType {
    /// The number that stands for this type on the plugin interface.
    pub open spec fn index(self) -> int {
        match self {
            PluginDataType::Bool => 0,
            PluginDataType::Int => 1,
            PluginDataType::Float => 2,
            PluginDataType::String => 3,
            PluginDataType::Enum => 4,
        }
    }

    /// The type that the number `index` stands for.
    pub open spec fn of_index(index: int) -> PluginDataType {
        if index == 0 {
            PluginDataType::Bool
        } else if index == 1 {
            PluginDataType::Int
        } else if index == 2 {
            PluginDataType::Float
        } else if index == 3 {
            PluginDataType::String
        } else {
            PluginDataType::Enum
        }
    }

    /// The type that a number read from a plugin stands for; numbers
    /// outside 0 to 4 are a format error.
    pub fn try_from_i32(value: i32) -> (r: Result<PluginDataType, PluginLoadError>)
        ensures
            0 <= value <= 4 ==> r == Ok::<PluginDataType, PluginLoadError>(
                PluginDataType::of_index(value as int),
            ),
            !(0 <= value <= 4) ==> (r matches Err(PluginLoadError::FormatError(m)) && m@
                == bad_type_index_message(value as int)),
    {
        if value == 0 {
            Ok(PluginDataType::Bool)
        } else if value == 1 {
            Ok(PluginDataType::Int)
        } else if value == 2 {
            Ok(PluginDataType::Float)
        } else if value == 3 {
            Ok(PluginDataType::String)
        } else if value == 4 {
            Ok(PluginDataType::Enum)
        } else {
            proof {
                reveal_strlit("No plugin data type with index '");
                reveal_strlit("'");
            }
            let d = i32_to_decimal(value);
            let m = concat3("No plugin data type with index '", d.as_str(), "'");
            assert(m@ =~= bad_type_index_message(value as int));
            Err(PluginLoadError::FormatError(m))
        }
    }

    /// How the type is shown (its `Display`): `bool`, `int`, `float`,
    /// `string` or `enum`.
    pub fn display_string(&self) -> (r: String)
        ensures
            r@ == kind_name(self.index()),
    {
        match self {
            PluginDataType::Bool => kind_name_string(0),
            PluginDataType::Int => kind_name_string(1),
            PluginDataType::Float => kind_name_string(2),
            PluginDataType::String => kind_name_string(3),
            PluginDataType::Enum => kind_name_string(4),
        }
    }
}

/// The type number of a plugin-kit type reads back, in the loader, as the
/// data type with the same name; and the kit reads its own number back as
/// the same type, for each of the five types.
pub proof fn law_type_numbers_agree(t: Type)
    ensures
        0 <= t.index() <= 4,
        PluginDataType::of_index(t.index()).index() == t.index(),
        type_index_of_name(kind_name(t.index())) == Some(t.index()),
        Type::of_index(t.index()) == t,
{
}

} // verus!
