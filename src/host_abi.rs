//! The capability host ABI: what a guest may call back into while it runs.
//!
//! A guest hands the host a `(ptr, len)` pair that addresses its own linear
//! memory. The host reads those bytes with a bounds check and appends what
//! the capability produces to the per-invocation output accumulator. A bad
//! pointer, a bad length or an unreadable directory adds nothing: the guest
//! can never make a capability fail the invocation.
use vstd::prelude::*;
use vstd::string::*;
use crate::text::{ascii_chars, decode_lossy, is_ascii_bytes, lossy_text};

verus! {

/// The bytes at `[ptr, ptr + len)` of the guest memory `mem`, or `None` where
/// the pair is negative or runs past the end of the memory.
pub open spec fn guest_bytes(mem: Seq<u8>, ptr: i32, len: i32) -> Option<Seq<u8>> {
    if 0 <= ptr && 0 <= len && ptr as int + len as int <= mem.len() {
        Some(mem.subrange(ptr as int, ptr as int + len as int))
    } else {
        None
    }
}

/// Bounds-checked read of `len` bytes at `ptr` from the guest memory `mem`.
pub fn read_guest(mem: &[u8], ptr: i32, len: i32) -> (r: Option<Vec<u8>>)
    ensures
        match guest_bytes(mem@, ptr, len) {
            Some(b) => r is Some && r->0@ == b,
            None => r is None,
        },
{
    if ptr < 0 || len < 0 {
        return None;
    }
    let start = ptr as usize;
    let count = len as usize;
    if count > mem.len() || start > mem.len() - count {
        return None;
    }
    let end = start + count;
    let mut out: Vec<u8> = Vec::with_capacity(count);
    let mut i: usize = start;
    while i < end
        invariant
            start <= i <= end,
            end <= mem@.len(),
            out@ == mem@.subrange(start as int, i as int),
        decreases end - i,
    {
        out.push(mem[i]);
        i = i + 1;
        assert(out@ =~= mem@.subrange(start as int, i as int));
    }
    Some(out)
}

/// The growable text buffer that collects everything one invocation's guest
/// emits through the capabilities.
pub struct OutputAccumulator {
    text: String,
}

impl View for OutputAccumulator {
    type V = Seq<char>;

    closed spec fn view(&self) -> Seq<char> {
        self.text@
    }
}

impl OutputAccumulator {
    /// An empty accumulator.
    pub fn new() -> (r: OutputAccumulator)
        ensures
            r@ == Seq::<char>::empty(),
    {
        OutputAccumulator { text: String::new() }
    }

    /// Appends `s` at the end.
    pub fn append(&mut self, s: &str)
        ensures
            final(self)@ == old(self)@ + s@,
    {
        self.text.append(s);
    }

    /// The collected text.
    pub fn into_string(self) -> (r: String)
        ensures
            r@ == self@,
    {
        self.text
    }
}

/// Lists a host directory for the `readdir` capability. The embedding program
/// supplies it, as the library itself does not touch the file system.
pub trait DirectoryLister {
    /// The names of the immediate entries of the directory at `path`, or
    /// `None` where it cannot be read.
    fn list_dir(&self, path: &str) -> Option<Vec<String>>;
}

/// The lower-case hexadecimal digit for `n` below 16.
pub open spec fn hex_digit(n: u32) -> char {
    seq!['0', '1', '2', '3', '4', '5', '6', '7', '8', '9', 'a', 'b', 'c', 'd', 'e', 'f'][n as int]
}

/// A character as it stands inside a JSON string: quote and backslash behind
/// a backslash, the control characters below U+0020 as `\b`, `\t`, `\n`,
/// `\f`, `\r` or `\u00xx`, every other character as itself.
pub open spec fn json_escaped_char(c: char) -> Seq<char> {
    if c == '"' {
        seq!['\\', '"']
    } else if c == '\\' {
        seq!['\\', '\\']
    } else if c == '\u{8}' {
        seq!['\\', 'b']
    } else if c == '\t' {
        seq!['\\', 't']
    } else if c == '\n' {
        seq!['\\', 'n']
    } else if c == '\u{c}' {
        seq!['\\', 'f']
    } else if c == '\r' {
        seq!['\\', 'r']
    } else if (c as u32) < 0x20 {
        seq!['\\', 'u', '0', '0', hex_digit((c as u32) / 16), hex_digit((c as u32) % 16)]
    } else {
        seq![c]
    }
}

/// The characters of `s`, each escaped for a JSON string.
pub open spec fn json_escaped(s: Seq<char>) -> Seq<char>
    decreases s.len(),
{
    if s.len() == 0 {
        Seq::empty()
    } else {
        json_escaped(s.drop_last()) + json_escaped_char(s.last())
    }
}

/// `s` as a JSON string.
pub open spec fn json_string(s: Seq<char>) -> Seq<char> {
    seq!['"'] + json_escaped(s) + seq!['"']
}

/// The JSON strings of `names`, separated by commas.
pub open spec fn json_items(names: Seq<Seq<char>>) -> Seq<char>
    decreases names.len(),
{
    if names.len() == 0 {
        Seq::empty()
    } else if names.len() == 1 {
        json_string(names[0])
    } else {
        json_items(names.drop_last()) + seq![','] + json_string(names.last())
    }
}

/// The compact JSON array of the strings `names`.
pub open spec fn json_string_array(names: Seq<Seq<char>>) -> Seq<char> {
    seq!['['] + json_items(names) + seq![']']
}

/// The texts of a list of names.
pub open spec fn name_texts(names: Seq<String>) -> Seq<Seq<char>> {
    names.map_values(|s: String| s@)
}

/// Relies on `serde_json::to_string` on a `Vec<String>`: the compact JSON
/// array of the strings, escaped as its compact formatter escapes them. Its documentation names a
/// failing `Serialize` impl and a map with non-string keys as the only causes
/// of failure; a list of strings has neither, so it succeeds.
#[verifier::external_body]
fn to_json_array(names: &Vec<String>) -> (r: Result<String, serde_json::Error>)
    ensures
        r is Ok,
        r is Ok ==> r->Ok_0@ == json_string_array(name_texts(names@)),
{
    serde_json::to_string(names)
}

#[verifier::external_type_specification]
#[verifier::external_body]
pub struct ExJsonError(serde_json::Error);

/// What `write` adds to the output: the addressed bytes decoded lossily as
/// UTF-8, or nothing where the pair does not address guest memory.
pub open spec fn write_output(mem: Seq<u8>, ptr: i32, len: i32) -> Seq<char> {
    match guest_bytes(mem, ptr, len) {
        Some(b) => lossy_text(b),
        None => Seq::empty(),
    }
}

/// One call of a capability by the guest: the guest memory it saw, its
/// `(ptr, len)` pair, and for `readdir` what listing the directory gave.
/// For `readdir`, `listing` is what the directory lister answered for the
/// path `readdir_path` read, or `None` where no path was read.
pub enum HostCall {
    Write { mem: Seq<u8>, ptr: i32, len: i32 },
    Readdir { mem: Seq<u8>, ptr: i32, len: i32, listing: Option<Seq<Seq<char>>> },
}

/// What a `readdir` call adds to the output: nothing for an out-of-bounds
/// path or an unreadable directory, else the JSON array of the entry names.
pub open spec fn readdir_output(mem: Seq<u8>, ptr: i32, len: i32, listing: Option<Seq<Seq<char>>>) -> Seq<char> {
    match guest_bytes(mem, ptr, len) {
        None => Seq::empty(),
        Some(_) => match listing {
            None => Seq::empty(),
            Some(names) => json_string_array(names),
        },
    }
}

/// What one capability call adds to the output.
pub open spec fn call_output(c: HostCall) -> Seq<char> {
    match c {
        HostCall::Write { mem, ptr, len } => write_output(mem, ptr, len),
        HostCall::Readdir { mem, ptr, len, listing } => readdir_output(mem, ptr, len, listing),
    }
}

/// What a sequence of capability calls adds to the output, in order.
pub open spec fn calls_output(calls: Seq<HostCall>) -> Seq<char>
    decreases calls.len(),
{
    if calls.len() == 0 {
        Seq::empty()
    } else {
        calls_output(calls.drop_last()) + call_output(calls.last())
    }
}

/// The output of calls followed by more calls is the output of the first
/// ones followed by that of the others.
pub proof fn lemma_calls_output_append(a: Seq<HostCall>, b: Seq<HostCall>)
    ensures
        calls_output(a + b) == calls_output(a) + calls_output(b),
    decreases b.len(),
{
    if b.len() == 0 {
        assert(a + b =~= a);
        assert(calls_output(a) + Seq::<char>::empty() =~= calls_output(a));
    } else {
        lemma_calls_output_append(a, b.drop_last());
        assert((a + b).drop_last() =~= a + b.drop_last());
        assert((a + b).last() == b.last());
        assert(calls_output(a) + calls_output(b.drop_last()) + call_output(b.last()) =~= calls_output(a) + (
        calls_output(b.drop_last()) + call_output(b.last())));
    }
}

/// The `write(ptr, len)` capability: appends the addressed guest bytes,
/// decoded lossily as UTF-8, to `out`; out-of-bounds input adds nothing.
pub fn host_write(out: &mut OutputAccumulator, mem: &[u8], ptr: i32, len: i32)
    ensures
        final(out)@ == old(out)@ + write_output(mem@, ptr, len),
        guest_bytes(mem@, ptr, len) is Some && is_ascii_bytes(guest_bytes(mem@, ptr, len)->0)
            ==> final(out)@ == old(out)@ + ascii_chars(guest_bytes(mem@, ptr, len)->0),
        guest_bytes(mem@, ptr, len) is Some && vstd::utf8::valid_utf8(guest_bytes(mem@, ptr, len)->0)
            ==> final(out)@ == old(out)@ + vstd::utf8::decode_utf8(guest_bytes(mem@, ptr, len)->0),
{
    match read_guest(mem, ptr, len) {
        Some(bytes) => {
            let text = decode_lossy(bytes.as_slice());
            out.append(text.as_str());
        },
        None => {
            assert(old(out)@ + Seq::<char>::empty() =~= old(out)@);
        },
    }
}

/// Appends the JSON array of a directory listing to `out`, or nothing where
/// the directory could not be read.
pub fn append_listing(out: &mut OutputAccumulator, listing: Option<Vec<String>>)
    ensures
        match listing {
            None => final(out)@ == old(out)@,
            Some(v) => final(out)@ == old(out)@ + json_string_array(name_texts(v@)),
        },
{
    match listing {
        Some(names) => {
            match to_json_array(&names) {
                Ok(json) => out.append(json.as_str()),
                Err(_) => {
                    assert(false);
                },
            }
        },
        None => {
            assert(old(out)@ + Seq::<char>::empty() =~= old(out)@);
        },
    }
}

/// The path a `readdir(ptr, len)` call names: the addressed guest bytes
/// decoded lossily as UTF-8, or `None` where the pair does not address guest
/// memory.
pub fn readdir_path(mem: &[u8], ptr: i32, len: i32) -> (r: Option<String>)
    ensures
        match guest_bytes(mem@, ptr, len) {
            Some(b) => r is Some && r->0@ == lossy_text(b),
            None => r is None,
        },
{
    match read_guest(mem, ptr, len) {
        Some(bytes) => Some(decode_lossy(bytes.as_slice())),
        None => None,
    }
}

} // verus!
