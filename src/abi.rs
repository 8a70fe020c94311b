//! The values that cross the plugin boundary, as plain Rust values.
use vstd::prelude::*;
use vstd::string::StrSliceExecFns;
use vstd::string::StringSliceAdditionalSpecFns;

verus! {

/// The version of the plugin interface that this plugin is written against.
pub const PLUGIN_INTERFACE_VERSION: i32 = 3;

/// The closed set of status codes of the interface.
#[derive(Clone, Copy, Debug, PartialEq, Eq, Structural)]
pub enum plugin_error_t {
    PLUGIN_SUCCESS,
    PLUGIN_ERROR_GENERAL,
    PLUGIN_ERROR_INVALID_ARGS,
    PLUGIN_ERROR_NOT_IMPLEMENTED,
    PLUGIN_ERROR_OUT_OF_MEMORY,
    PLUGIN_ERROR_NULL_POINTER,
}

/// The integer that stands for each status on the wire.
pub open spec fn error_code(e: plugin_error_t) -> int {
    match e {
        plugin_error_t::PLUGIN_SUCCESS => 0,
        plugin_error_t::PLUGIN_ERROR_GENERAL => -1,
        plugin_error_t::PLUGIN_ERROR_INVALID_ARGS => -2,
        plugin_error_t::PLUGIN_ERROR_NOT_IMPLEMENTED => -3,
        plugin_error_t::PLUGIN_ERROR_OUT_OF_MEMORY => -4,
        plugin_error_t::PLUGIN_ERROR_NULL_POINTER => -5,
    }
}

impl plugin_error_t {
    /// The wire value of this status.
    pub fn code(self) -> (r: i32)
        ensures
            r == error_code(self),
    {
        match self {
            plugin_error_t::PLUGIN_SUCCESS => 0,
            plugin_error_t::PLUGIN_ERROR_GENERAL => -1,
            plugin_error_t::PLUGIN_ERROR_INVALID_ARGS => -2,
            plugin_error_t::PLUGIN_ERROR_NOT_IMPLEMENTED => -3,
            plugin_error_t::PLUGIN_ERROR_OUT_OF_MEMORY => -4,
            plugin_error_t::PLUGIN_ERROR_NULL_POINTER => -5,
        }
    }

    /// The status that a wire value stands for, if any.
    pub fn from_code(c: i32) -> (r: Option<plugin_error_t>)
        ensures
            r matches Some(e) ==> error_code(e) == c,
            r is None <==> !(-5 <= c <= 0),
    {
        if c == 0 {
            Some(plugin_error_t::PLUGIN_SUCCESS)
        } else if c == -1 {
            Some(plugin_error_t::PLUGIN_ERROR_GENERAL)
        } else if c == -2 {
            Some(plugin_error_t::PLUGIN_ERROR_INVALID_ARGS)
        } else if c == -3 {
            Some(plugin_error_t::PLUGIN_ERROR_NOT_IMPLEMENTED)
        } else if c == -4 {
            Some(plugin_error_t::PLUGIN_ERROR_OUT_OF_MEMORY)
        } else if c == -5 {
            Some(plugin_error_t::PLUGIN_ERROR_NULL_POINTER)
        } else {
            None
        }
    }
}

/// An owned, NUL-terminated byte buffer handed across the boundary.
/// `data` is the whole allocation: the text, then one NUL byte.
pub struct plugin_string_t {
    pub data: Vec<u8>,
    pub length: i32,
    pub capacity: i32,
}

impl plugin_string_t {
    /// The buffer is either the explicit empty string (no allocation at all),
    /// or `length` text bytes free of NUL followed by one NUL, `capacity` bytes in all.
    pub open spec fn wf(&self) -> bool {
        ||| (self.length == 0 && self.capacity == 0 && self.data@.len() == 0)
        ||| (0 <= self.length < self.capacity && self.data@.len() == self.capacity
            && self.capacity == self.length + 1 && self.data@[self.length as int] == 0
            && no_nul(self.data@.subrange(0, self.length as int)))
    }

    /// The text bytes, without the terminator.
    pub open spec fn text(&self) -> Seq<u8> {
        self.data@.subrange(0, self.length as int)
    }
}

/// No byte of `b` is NUL.
pub open spec fn no_nul(b: Seq<u8>) -> bool {
    forall|i: int| 0 <= i < b.len() ==> b[i] != 0
}

/// A key/value pair of settings, each an owned string.
pub struct plugin_setting_t {
    pub key: String,
    pub value: String,
}

/// The argument vector of one command: `args[0]` is the command's name,
/// `count` the number of arguments, `position` the host's parse cursor.
pub struct plugin_args_t {
    pub args: Vec<String>,
    pub count: i32,
    pub position: i32,
}

impl plugin_args_t {
    /// `count` says how many arguments there are.
    pub open spec fn wf(&self) -> bool {
        self.count as int == self.args@.len()
    }
}

/// The metadata that a plugin reports about itself.
pub struct plugin_info_t {
    pub name: String,
    pub version: String,
    pub description: String,
    pub author: String,
    pub interface_version: i32,
}

/// The outcome of a validation: a status and, on failure, a message.
pub struct plugin_validation_t {
    pub status: plugin_error_t,
    pub error_message: Option<String>,
}

/// Builds the owned wire string that carries `s`.
pub fn create_plugin_string(s: &str) -> (r: plugin_string_t)
    requires
        s.spec_bytes().len() < i32::MAX,
        no_nul(s.spec_bytes()),
    ensures
        r.wf(),
        r.length == s.spec_bytes().len(),
        r.capacity == s.spec_bytes().len() + 1,
        r.data@ == s.spec_bytes().push(0),
{
    let mut data = s.as_bytes_vec();
    let len = data.len();
    data.push(0u8);
    assert(data@.subrange(0, len as int) =~= s.spec_bytes());
    plugin_string_t { data, length: len as i32, capacity: (len + 1) as i32 }
}

/// `r` carries the bytes `b` where the interface can carry them (no NUL among
/// them, a length that fits), and is the explicit empty string otherwise.
pub open spec fn carries(r: plugin_string_t, b: Seq<u8>) -> bool {
    if no_nul(b) && b.len() < i32::MAX {
        r.data@ == b.push(0) && r.length == b.len() && r.capacity == b.len() + 1
    } else {
        r.length == 0 && r.capacity == 0 && r.data@.len() == 0
    }
}

/// Whether `b` holds a NUL byte.
pub fn has_nul(b: &[u8]) -> (r: bool)
    ensures
        r == !no_nul(b@),
{
    let mut i: usize = 0;
    while i < b.len()
        invariant
            i <= b@.len(),
            no_nul(b@.subrange(0, i as int)),
        decreases b@.len() - i,
    {
        if b[i] == 0 {
            return true;
        }
        assert(b@.subrange(0, i + 1) =~= b@.subrange(0, i as int).push(b@[i as int]));
        i = i + 1;
    }
    assert(b@.subrange(0, i as int) =~= b@);
    false
}

/// The wire string for `s`; a text that the interface cannot carry becomes
/// the explicit empty string rather than a fault at the boundary.
pub fn plugin_string_from(s: &str) -> (r: plugin_string_t)
    ensures
        r.wf(),
        carries(r, s.spec_bytes()),
{
    let b = s.as_bytes();
    if b.len() < i32::MAX as usize && !has_nul(b) {
        create_plugin_string(s)
    } else {
        plugin_string_t { data: Vec::new(), length: 0, capacity: 0 }
    }
}

} // verus!
