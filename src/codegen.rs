//! Build-time generation of the address tables: images are scanned once per version, and
//! the results become Rust source text.
use heck::AsSnakeCase;
use vstd::prelude::*;
use vstd::string::StringExecFns;

use crate::aob::{find_aobs, found_spec, missing_spec, AddressingMode, Aob};
use crate::pattern::needle_of;

verus! {

/// The snake-case form of a name, as heck writes it.
pub uninterp spec fn snake_case_of(s: Seq<char>) -> Seq<char>;

/// Relies on `heck::AsSnakeCase`: its display form is the snake-case form of the name,
/// which depends on the name alone.
#[verifier::external_body]
fn snake_case(s: &str) -> (r: String)
    ensures
        r@ == snake_case_of(s@),
{
    AsSnakeCase(s).to_string()
}

/// The character of a digit below 16, lower case.
pub open spec fn digit_char(d: nat) -> char {
    if d == 0 {
        '0'
    } else if d == 1 {
        '1'
    } else if d == 2 {
        '2'
    } else if d == 3 {
        '3'
    } else if d == 4 {
        '4'
    } else if d == 5 {
        '5'
    } else if d == 6 {
        '6'
    } else if d == 7 {
        '7'
    } else if d == 8 {
        '8'
    } else if d == 9 {
        '9'
    } else if d == 10 {
        'a'
    } else if d == 11 {
        'b'
    } else if d == 12 {
        'c'
    } else if d == 13 {
        'd'
    } else if d == 14 {
        'e'
    } else {
        'f'
    }
}

/// `n` in base 10.
pub open spec fn decimal(n: nat) -> Seq<char>
    decreases n,
{
    if n < 10 {
        seq![digit_char(n)]
    } else {
        decimal(n / 10).push(digit_char(n % 10))
    }
}

/// `n` in base 10, with a leading zero below 10.
pub open spec fn two_digits(n: nat) -> Seq<char> {
    if n < 10 {
        seq!['0', digit_char(n)]
    } else {
        decimal(n)
    }
}

/// `n` in base 16, lower case.
pub open spec fn hexadecimal(n: nat) -> Seq<char>
    decreases n,
{
    if n < 16 {
        seq![digit_char(n)]
    } else {
        hexadecimal(n / 16).push(digit_char(n % 16))
    }
}

fn digit(d: u64) -> (r: &'static str)
    requires
        d < 16,
    ensures
        r@ == seq![digit_char(d as nat)],
{
    match d {
        0 => {
            proof {
                reveal_strlit("0");
            }
            "0"
        },
        1 => {
            proof {
                reveal_strlit("1");
            }
            "1"
        },
        2 => {
            proof {
                reveal_strlit("2");
            }
            "2"
        },
        3 => {
            proof {
                reveal_strlit("3");
            }
            "3"
        },
        4 => {
            proof {
                reveal_strlit("4");
            }
            "4"
        },
        5 => {
            proof {
                reveal_strlit("5");
            }
            "5"
        },
        6 => {
            proof {
                reveal_strlit("6");
            }
            "6"
        },
        7 => {
            proof {
                reveal_strlit("7");
            }
            "7"
        },
        8 => {
            proof {
                reveal_strlit("8");
            }
            "8"
        },
        9 => {
            proof {
                reveal_strlit("9");
            }
            "9"
        },
        10 => {
            proof {
                reveal_strlit("a");
            }
            "a"
        },
        11 => {
            proof {
                reveal_strlit("b");
            }
            "b"
        },
        12 => {
            proof {
                reveal_strlit("c");
            }
            "c"
        },
        13 => {
            proof {
                reveal_strlit("d");
            }
            "d"
        },
        14 => {
            proof {
                reveal_strlit("e");
            }
            "e"
        },
        _ => {
            proof {
                reveal_strlit("f");
            }
            "f"
        },
    }
}

/// Appends `n` in base 10.
fn push_decimal(s: &mut String, n: u64)
    ensures
        final(s)@ == old(s)@ + decimal(n as nat),
    decreases n,
{
    if n >= 10 {
        push_decimal(s, n / 10);
    }
    s.append(digit(n % 10));
    assert(final(s)@ =~= old(s)@ + decimal(n as nat)) by {
        if n >= 10 {
            assert(decimal(n as nat) == decimal((n / 10) as nat).push(digit_char((n % 10) as nat)));
        }
    }
}

/// Appends `n` in base 10, with a leading zero below 10.
fn push_two_digits(s: &mut String, n: u64)
    ensures
        final(s)@ == old(s)@ + two_digits(n as nat),
{
    if n < 10 {
        s.append(digit(0));
        s.append(digit(n));
        assert(final(s)@ =~= old(s)@ + two_digits(n as nat));
    } else {
        push_decimal(s, n);
    }
}

/// Appends `n` in base 16.
fn push_hexadecimal(s: &mut String, n: u64)
    ensures
        final(s)@ == old(s)@ + hexadecimal(n as nat),
    decreases n,
{
    if n >= 16 {
        push_hexadecimal(s, n / 16);
    }
    s.append(digit(n % 16));
    assert(final(s)@ =~= old(s)@ + hexadecimal(n as nat)) by {
        if n >= 16 {
            assert(hexadecimal(n as nat) == hexadecimal((n / 16) as nat).push(
                digit_char((n % 16) as nat),
            ));
        }
    }
}

/// A version number `(major, minor, patch)` read from an executable.
#[derive(Clone, Copy, Debug, PartialEq, Eq, Hash, Structural)]
pub struct Version(pub u32, pub u32, pub u32);

/// The version that an executable's fixed file information carries: major and minor
/// number are the high and low halves of its most significant word, the patch number is the
/// high half of its least significant word.
pub fn version_from_file_info(ms: u32, ls: u32) -> (r: Version)
    ensures
        r == Version(ms / 0x10000, ms % 0x10000, ls / 0x10000),
{
    let major = (ms >> 16) & 0xffff;
    let minor = ms & 0xffff;
    let patch = (ls >> 16) & 0xffff;
    assert(major == ms / 0x10000 && minor == ms % 0x10000 && patch == ls / 0x10000) by (bit_vector)
        requires
            major == (ms >> 16) & 0xffff,
            minor == ms & 0xffff,
            patch == (ls >> 16) & 0xffff,
    ;
    Version(major, minor, patch)
}

/// The name stem of a version: `1_02_0` for 1.2.0.
pub open spec fn stem(v: Version) -> Seq<char> {
    decimal(v.0 as nat) + "_"@ + two_digits(v.1 as nat) + "_"@ + decimal(v.2 as nat)
}

/// The version as the publisher writes it: `1.02.0` for 1.2.0.
pub open spec fn publisher_form(v: Version) -> Seq<char> {
    decimal(v.0 as nat) + "."@ + two_digits(v.1 as nat) + "."@ + decimal(v.2 as nat)
}

impl Version {
    /// The version as the publisher writes it, with two digits for the minor number.
    pub fn to_fromsoft_string(self) -> (r: String)
        ensures
            r@ == publisher_form(self),
    {
        let mut s = String::new();
        push_decimal(&mut s, self.0 as u64);
        s.append(".");
        push_two_digits(&mut s, self.1 as u64);
        s.append(".");
        push_decimal(&mut s, self.2 as u64);
        assert(s@ =~= publisher_form(self));
        s
    }
}

/// Appends the name stem of a version.
fn push_stem(s: &mut String, v: Version)
    ensures
        final(s)@ == old(s)@ + stem(v),
{
    push_decimal(s, v.0 as u64);
    s.append("_");
    push_two_digits(s, v.1 as u64);
    s.append("_");
    push_decimal(s, v.2 as u64);
    assert(final(s)@ =~= old(s)@ + stem(v));
}

/// The features found in the image of one version.
pub struct VersionData {
    pub version: Version,
    pub aobs: Vec<(String, usize)>,
}

/// What the features of one version are, as names and addresses.
pub open spec fn entries_of(d: VersionData) -> Seq<(Seq<char>, int)> {
    d.aobs@.map_values(|e: (String, usize)| (e.0@, e.1 as int))
}

/// `entries` with one more version, unless that version is already there.
pub open spec fn with_image(
    entries: Seq<(Version, Seq<(Seq<char>, int)>)>,
    v: Version,
    found: Seq<(Seq<char>, int)>,
) -> Seq<(Version, Seq<(Seq<char>, int)>)> {
    if exists|i: int| 0 <= i < entries.len() && #[trigger] entries[i].0 == v {
        entries
    } else {
        entries.push((v, found))
    }
}

/// An image whose version was already scanned adds nothing: of two images with the same
/// version, only the first counts.
pub proof fn lemma_same_version_scanned_once(
    entries: Seq<(Version, Seq<(Seq<char>, int)>)>,
    v: Version,
    first: Seq<(Seq<char>, int)>,
    second: Seq<(Seq<char>, int)>,
)
    ensures
        with_image(with_image(entries, v, first), v, second) == with_image(entries, v, first),
{
    let once = with_image(entries, v, first);
    if !(exists|i: int| 0 <= i < entries.len() && #[trigger] entries[i].0 == v) {
        assert(once[entries.len() as int].0 == v);
    }
}

/// The tables that scanning `images` in order gives, each image skipped when its version
/// was scanned before.
pub open spec fn generated(aobs: Seq<Aob>, images: Seq<(Version, Seq<u8>)>) -> Seq<
    (Version, Seq<(Seq<char>, int)>),
>
    decreases images.len(),
{
    if images.len() == 0 {
        Seq::empty()
    } else {
        with_image(
            generated(aobs, images.drop_last()),
            images.last().0,
            found_spec(aobs, images.last().1),
        )
    }
}

/// What the first image of version `v` in `images` yields, if any image has that version.
pub open spec fn first_found(aobs: Seq<Aob>, images: Seq<(Version, Seq<u8>)>, v: Version) -> Option<
    Seq<(Seq<char>, int)>,
>
    decreases images.len(),
{
    if images.len() == 0 {
        None
    } else if first_found(aobs, images.drop_last(), v) is Some {
        first_found(aobs, images.drop_last(), v)
    } else if images.last().0 == v {
        Some(found_spec(aobs, images.last().1))
    } else {
        None
    }
}

/// `v` has a table in `e`.
pub open spec fn has_table(e: Seq<(Version, Seq<(Seq<char>, int)>)>, v: Version) -> bool {
    exists|i: int| 0 <= i < e.len() && #[trigger] e[i].0 == v
}

/// Generating tables from a run of images gives one table per distinct version: no version
/// has two tables, a version has a table exactly when some image carries it, and each
/// table is what the first image of its version yields.
pub proof fn lemma_generated_tables(aobs: Seq<Aob>, images: Seq<(Version, Seq<u8>)>)
    ensures
        forall|i: int, j: int|
            0 <= i < j < generated(aobs, images).len() ==> #[trigger] generated(aobs, images)[i].0
                != #[trigger] generated(aobs, images)[j].0,
        forall|v: Version|
            #[trigger] has_table(generated(aobs, images), v) <==> first_found(aobs, images, v) is Some,
        forall|i: int|
            0 <= i < generated(aobs, images).len() ==> first_found(
                aobs,
                images,
                #[trigger] generated(aobs, images)[i].0,
            ) == Some(generated(aobs, images)[i].1),
    decreases images.len(),
{
    if images.len() > 0 {
        let front = images.drop_last();
        lemma_generated_tables(aobs, front);
        let e0 = generated(aobs, front);
        let e = generated(aobs, images);
        let v = images.last().0;
        if has_table(e0, v) {
            assert(e == e0);
        } else {
            let found = found_spec(aobs, images.last().1);
            assert(e == e0.push((v, found)));
            assert(first_found(aobs, front, v) is None);
            assert forall|w: Version| #[trigger] has_table(e, w) <==> first_found(aobs, images, w) is Some by {
                if w == v {
                    assert(e[e0.len() as int].0 == v);
                } else if has_table(e, w) {
                    let i = choose|i: int| 0 <= i < e.len() && #[trigger] e[i].0 == w;
                    assert(e0[i] == e[i]);
                    assert(has_table(e0, w));
                } else if has_table(e0, w) {
                    let i = choose|i: int| 0 <= i < e0.len() && #[trigger] e0[i].0 == w;
                    assert(e[i] == e0[i]);
                }
            }
            assert forall|i: int| 0 <= i < e.len() implies first_found(
                aobs,
                images,
                #[trigger] e[i].0,
            ) == Some(e[i].1) by {
                if i < e0.len() {
                    assert(e[i] == e0[i]);
                    assert(first_found(aobs, front, e0[i].0) is Some);
                }
            }
            assert forall|i: int, j: int| 0 <= i < j < e.len() implies #[trigger] e[i].0
                != #[trigger] e[j].0 by {
                assert(e[i] == e0[i]);
                if j < e0.len() {
                    assert(e[j] == e0[j]);
                } else {
                    assert(e0[i].0 != v);
                }
            }
        }
    }
}

/// Every image's version is among those that the run of images yields something for.
pub proof fn lemma_every_version_found(aobs: Seq<Aob>, images: Seq<(Version, Seq<u8>)>, k: int)
    requires
        0 <= k < images.len(),
    ensures
        first_found(aobs, images, images[k].0) is Some,
        has_table(generated(aobs, images), images[k].0),
    decreases images.len(),
{
    lemma_generated_tables(aobs, images);
    if k < images.len() - 1 {
        lemma_every_version_found(aobs, images.drop_last(), k);
        assert(images.drop_last()[k] == images[k]);
    }
}

/// The images as plain values: each version with the bytes of its image.
pub open spec fn images_view(images: Seq<(Version, Vec<u8>)>) -> Seq<(Version, Seq<u8>)> {
    images.map_values(|p: (Version, Vec<u8>)| (p.0, p.1@))
}

/// The tables scanned so far, one per version, in the order in which the versions came.
pub struct TableGenerator {
    data: Vec<VersionData>,
}

impl TableGenerator {
    /// The versions scanned and what was found for each.
    pub closed spec fn entries(&self) -> Seq<(Version, Seq<(Seq<char>, int)>)> {
        self.data@.map_values(|d: VersionData| (d.version, entries_of(d)))
    }

    /// Nothing scanned yet.
    pub fn new() -> (r: TableGenerator)
        ensures
            r.entries() == Seq::<(Version, Seq<(Seq<char>, int)>)>::empty(),
    {
        let r = TableGenerator { data: Vec::new() };
        assert(r.entries() =~= Seq::<(Version, Seq<(Seq<char>, int)>)>::empty());
        r
    }

    /// Whether an image of version `v` still has to be scanned.
    pub fn needs_scan(&self, v: Version) -> (r: bool)
        ensures
            r == !exists|i: int| 0 <= i < self.entries().len() && #[trigger] self.entries()[i].0 == v,
    {
        let mut i: usize = 0;
        while i < self.data.len()
            invariant
                i <= self.data@.len(),
                self.entries().len() == self.data@.len(),
                forall|j: int| 0 <= j < i ==> #[trigger] self.entries()[j].0 != v,
            decreases self.data.len() - i,
        {
            assert(self.entries()[i as int].0 == self.data@[i as int].version);
            if self.data[i].version == v {
                return false;
            }
            i += 1;
        }
        true
    }

    /// Scans the image of version `v` for `aobs`, unless that version was scanned already;
    /// when it scans, returns the names of the features that it could not locate.
    pub fn add_image(&mut self, v: Version, aobs: &Vec<Aob>, bytes: &[u8]) -> (r: Option<
        Vec<String>,
    >)
        ensures
            final(self).entries() == with_image(old(self).entries(), v, found_spec(aobs@, bytes@)),
            r is Some == (final(self).entries() != old(self).entries()),
            r matches Some(missing) ==> missing@.map_values(|n: String| n@) == missing_spec(
                aobs@,
                bytes@,
            ),
    {
        if !self.needs_scan(v) {
            return None;
        }
        let report = find_aobs(aobs, bytes);
        let ghost before = self.entries();
        let d = VersionData { version: v, aobs: report.found };
        assert(entries_of(d) == found_spec(aobs@, bytes@));
        self.data.push(d);
        assert(self.entries() =~= before.push((v, found_spec(aobs@, bytes@))));
        assert(self.entries().len() != before.len());
        Some(report.missing)
    }

    /// The tables scanned, one per version.
    pub fn data(&self) -> (r: &Vec<VersionData>)
        ensures
            r@.map_values(|d: VersionData| (d.version, entries_of(d))) == self.entries(),
    {
        &self.data
    }
}

/// Scans a run of images in order, each version once, the first image of a version
/// giving its table.
pub fn generate_tables(aobs: &Vec<Aob>, images: &Vec<(Version, Vec<u8>)>) -> (r: TableGenerator)
    ensures
        r.entries() == generated(aobs@, images_view(images@)),
{
    let mut g = TableGenerator::new();
    let mut i: usize = 0;
    while i < images.len()
        invariant
            i <= images@.len(),
            g.entries() == generated(aobs@, images_view(images@).subrange(0, i as int)),
        decreases images.len() - i,
    {
        let _ = g.add_image(images[i].0, aobs, images[i].1.as_slice());
        let ghost next = images_view(images@).subrange(0, i + 1);
        assert(next.drop_last() =~= images_view(images@).subrange(0, i as int));
        i += 1;
    }
    assert(images_view(images@).subrange(0, i as int) =~= images_view(images@));
    g
}

/// The line that declares a field of the table.
pub open spec fn field_declaration(f: Seq<char>) -> Seq<char> {
    "    pub "@ + f + ": usize,\n"@
}

/// The line that relocates a field of the table.
pub open spec fn field_relocation(f: Seq<char>) -> Seq<char> {
    "            "@ + f + ": self."@ + f + " + base,\n"@
}

pub open spec fn field_line(relocate: bool, f: Seq<char>) -> Seq<char> {
    if relocate {
        field_relocation(f)
    } else {
        field_declaration(f)
    }
}

/// One line per field, in order.
pub open spec fn field_lines(relocate: bool, fs: Seq<Seq<char>>) -> Seq<char>
    decreases fs.len(),
{
    if fs.len() == 0 {
        Seq::empty()
    } else {
        field_lines(relocate, fs.drop_last()) + field_line(relocate, fs.last())
    }
}

/// The source of the table type, with one field per name, and of its relocation.
pub open spec fn struct_source(fs: Seq<Seq<char>>) -> Seq<char> {
    "#[derive(Debug)]\npub struct BaseAddresses {\n"@ + field_lines(false, fs)
        + "}\n\nimpl BaseAddresses {\n    pub fn with_module_base_addr(self, base: usize) -> BaseAddresses {\n        BaseAddresses {\n"@
        + field_lines(true, fs) + "        }\n    }\n}\n\n"@
}

fn push_field_lines(s: &mut String, relocate: bool, fields: &Vec<String>)
    ensures
        final(s)@ == old(s)@ + field_lines(relocate, fields@.map_values(|f: String| f@)),
{
    let ghost fs = fields@.map_values(|f: String| f@);
    let mut i: usize = 0;
    while i < fields.len()
        invariant
            i <= fields@.len(),
            fs == fields@.map_values(|f: String| f@),
            s@ == old(s)@ + field_lines(relocate, fs.subrange(0, i as int)),
        decreases fields.len() - i,
    {
        let ghost pre = s@;
        let f = fields[i].as_str();
        if relocate {
            s.append("            ");
            s.append(f);
            s.append(": self.");
            s.append(f);
            s.append(" + base,\n");
        } else {
            s.append("    pub ");
            s.append(f);
            s.append(": usize,\n");
        }
        assert(s@ =~= pre + field_line(relocate, fs[i as int]));
        assert(fs.subrange(0, i + 1).drop_last() =~= fs.subrange(0, i as int));
        i += 1;
    }
    assert(fs.subrange(0, i as int) =~= fs);
}

/// The source of the table type for the given field names.
pub fn base_addresses_struct_source(fields: &Vec<String>) -> (r: String)
    ensures
        r@ == struct_source(fields@.map_values(|f: String| f@)),
{
    let mut s = String::from_str("#[derive(Debug)]\npub struct BaseAddresses {\n");
    push_field_lines(&mut s, false, fields);
    s.append(
        "}\n\nimpl BaseAddresses {\n    pub fn with_module_base_addr(self, base: usize) -> BaseAddresses {\n        BaseAddresses {\n",
    );
    push_field_lines(&mut s, true, fields);
    s.append("        }\n    }\n}\n\n");
    assert(s@ =~= struct_source(fields@.map_values(|f: String| f@)));
    s
}

/// The source of the table type, with a field named after each feature.
pub fn codegen_base_addresses_struct(aobs: &Vec<Aob>) -> (r: String)
    ensures
        r@ == struct_source(aobs@.map_values(|a: Aob| snake_case_of(a.name@))),
{
    let mut fields: Vec<String> = Vec::new();
    let mut i: usize = 0;
    while i < aobs.len()
        invariant
            i <= aobs@.len(),
            fields@.map_values(|f: String| f@) =~= aobs@.subrange(0, i as int).map_values(
                |a: Aob| snake_case_of(a.name@),
            ),
        decreases aobs.len() - i,
    {
        let ghost before = fields@;
        let n = snake_case(aobs[i].name.as_str());
        assert(n@ == snake_case_of(aobs@[i as int].name@));
        fields.push(n);
        assert(fields@.map_values(|f: String| f@) =~= before.map_values(|f: String| f@).push(n@));
        assert(aobs@.subrange(0, i + 1).map_values(|a: Aob| snake_case_of(a.name@)) =~= aobs@.subrange(
            0,
            i as int,
        ).map_values(|a: Aob| snake_case_of(a.name@)).push(snake_case_of(aobs@[i as int].name@)));
        i += 1;
    }
    assert(aobs@.subrange(0, i as int) =~= aobs@);
    base_addresses_struct_source(&fields)
}

/// The line that sets one field in the table of a version.
pub open spec fn instance_line(e: (Seq<char>, int)) -> Seq<char> {
    "    "@ + e.0 + ": 0x"@ + hexadecimal(e.1 as nat) + ",\n"@
}

pub open spec fn instance_lines(es: Seq<(Seq<char>, int)>) -> Seq<char>
    decreases es.len(),
{
    if es.len() == 0 {
        Seq::empty()
    } else {
        instance_lines(es.drop_last()) + instance_line(es.last())
    }
}

/// The source of the table of one version, a constant named after the version.
pub open spec fn instance_source(v: Version, es: Seq<(Seq<char>, int)>) -> Seq<char> {
    "pub const BASE_ADDRESSES_"@ + stem(v) + ": BaseAddresses = BaseAddresses {\n"@
        + instance_lines(es) + "};\n\n"@
}

/// The source of the table of one version, for fields already named.
pub fn base_addresses_instance_source(ver: &Version, entries: &Vec<(String, usize)>) -> (r: String)
    ensures
        r@ == instance_source(*ver, entries@.map_values(|e: (String, usize)| (e.0@, e.1 as int))),
{
    let ghost es = entries@.map_values(|e: (String, usize)| (e.0@, e.1 as int));
    let mut s = String::from_str("pub const BASE_ADDRESSES_");
    push_stem(&mut s, *ver);
    s.append(": BaseAddresses = BaseAddresses {\n");
    let ghost head = s@;
    let mut i: usize = 0;
    while i < entries.len()
        invariant
            i <= entries@.len(),
            es == entries@.map_values(|e: (String, usize)| (e.0@, e.1 as int)),
            s@ == head + instance_lines(es.subrange(0, i as int)),
        decreases entries.len() - i,
    {
        let ghost pre = s@;
        s.append("    ");
        s.append(entries[i].0.as_str());
        s.append(": 0x");
        push_hexadecimal(&mut s, entries[i].1 as u64);
        s.append(",\n");
        assert(s@ =~= pre + instance_line(es[i as int]));
        assert(es.subrange(0, i + 1).drop_last() =~= es.subrange(0, i as int));
        i += 1;
    }
    assert(es.subrange(0, i as int) =~= es);
    s.append("};\n\n");
    assert(s@ =~= instance_source(*ver, es));
    s
}

/// The source of the table of one version, with each feature's name in snake case.
pub fn codegen_base_addresses_instances(ver: &Version, aobs: &Vec<(String, usize)>) -> (r: String)
    ensures
        r@ == instance_source(
            *ver,
            aobs@.map_values(|e: (String, usize)| (snake_case_of(e.0@), e.1 as int)),
        ),
{
    let mut named: Vec<(String, usize)> = Vec::new();
    let mut i: usize = 0;
    while i < aobs.len()
        invariant
            i <= aobs@.len(),
            named@.map_values(|e: (String, usize)| (e.0@, e.1 as int)) =~= aobs@.subrange(
                0,
                i as int,
            ).map_values(|e: (String, usize)| (snake_case_of(e.0@), e.1 as int)),
        decreases aobs.len() - i,
    {
        let ghost before = named@;
        let n = snake_case(aobs[i].0.as_str());
        let ghost e = aobs@[i as int];
        assert(n@ == snake_case_of(e.0@));
        named.push((n, aobs[i].1));
        assert(named@.map_values(|e: (String, usize)| (e.0@, e.1 as int)) =~= before.map_values(
            |e: (String, usize)| (e.0@, e.1 as int),
        ).push((n@, e.1 as int)));
        assert(aobs@.subrange(0, i + 1).map_values(
            |e: (String, usize)| (snake_case_of(e.0@), e.1 as int),
        ) =~= aobs@.subrange(0, i as int).map_values(
            |e: (String, usize)| (snake_case_of(e.0@), e.1 as int),
        ).push((snake_case_of(e.0@), e.1 as int)));
        i += 1;
    }
    assert(aobs@.subrange(0, i as int) =~= aobs@);
    base_addresses_instance_source(ver, &named)
}

/// The kinds of line that the version type's source has one of per version.
#[derive(Clone, Copy, PartialEq, Eq, Structural)]
pub enum VersionLine {
    /// A variant of the enumeration.
    Variant,
    /// The arm that recognizes the version number.
    Recognize,
    /// The arm that gives the version number back.
    Number,
    /// The arm that selects the version's table.
    Table,
}

/// The version number written as a tuple: `(1, 2, 0)`.
pub open spec fn number_tuple(v: Version) -> Seq<char> {
    "("@ + decimal(v.0 as nat) + ", "@ + decimal(v.1 as nat) + ", "@ + decimal(v.2 as nat) + ")"@
}

pub open spec fn version_line(kind: VersionLine, v: Version) -> Seq<char> {
    match kind {
        VersionLine::Variant => "    V"@ + stem(v) + ",\n"@,
        VersionLine::Recognize => "            "@ + number_tuple(v) + " => Ok(Version::V"@ + stem(v)
            + "),\n"@,
        VersionLine::Number => "            Version::V"@ + stem(v) + " => "@ + number_tuple(v)
            + ",\n"@,
        VersionLine::Table => "            Version::V"@ + stem(v) + " => BASE_ADDRESSES_"@ + stem(v)
            + ",\n"@,
    }
}

/// One line of the given kind per version, in order.
pub open spec fn version_lines(kind: VersionLine, vs: Seq<Version>) -> Seq<char>
    decreases vs.len(),
{
    if vs.len() == 0 {
        Seq::empty()
    } else {
        version_lines(kind, vs.drop_last()) + version_line(kind, vs.last())
    }
}

/// The source of the version type: the enumeration, recognition of a version number with
/// an error for an unknown one, the number of each version, and the table of each.
pub open spec fn version_enum_source(vs: Seq<Version>) -> Seq<char> {
    "#[derive(Clone, Copy)]\npub enum Version {\n"@ + version_lines(VersionLine::Variant, vs)
        + "}\n\nimpl TryFrom<(u32, u32, u32)> for Version {\n    type Error = (u32, u32, u32);\n\n    fn try_from(v: (u32, u32, u32)) -> Result<Self, Self::Error> {\n        match v {\n"@
        + version_lines(VersionLine::Recognize, vs)
        + "            other => Err(other),\n        }\n    }\n}\n\nimpl Version {\n    pub fn tuple(&self) -> (u8, u8, u8) {\n        match self {\n"@
        + version_lines(VersionLine::Number, vs)
        + "        }\n    }\n}\n\nimpl From<Version> for BaseAddresses {\n    fn from(v: Version) -> Self {\n        match v {\n"@
        + version_lines(VersionLine::Table, vs) + "        }\n    }\n}\n\n"@
}

/// The versions of the scanned tables, in order.
pub open spec fn versions_of(ver: Seq<VersionData>) -> Seq<Version> {
    ver.map_values(|d: VersionData| d.version)
}

fn push_number_tuple(s: &mut String, v: Version)
    ensures
        final(s)@ == old(s)@ + number_tuple(v),
{
    s.append("(");
    push_decimal(s, v.0 as u64);
    s.append(", ");
    push_decimal(s, v.1 as u64);
    s.append(", ");
    push_decimal(s, v.2 as u64);
    s.append(")");
    assert(final(s)@ =~= old(s)@ + number_tuple(v));
}

fn push_version_line(s: &mut String, kind: VersionLine, v: Version)
    ensures
        final(s)@ == old(s)@ + version_line(kind, v),
{
    match kind {
        VersionLine::Variant => {
            s.append("    V");
            push_stem(s, v);
            s.append(",\n");
        },
        VersionLine::Recognize => {
            s.append("            ");
            push_number_tuple(s, v);
            s.append(" => Ok(Version::V");
            push_stem(s, v);
            s.append("),\n");
        },
        VersionLine::Number => {
            s.append("            Version::V");
            push_stem(s, v);
            s.append(" => ");
            push_number_tuple(s, v);
            s.append(",\n");
        },
        VersionLine::Table => {
            s.append("            Version::V");
            push_stem(s, v);
            s.append(" => BASE_ADDRESSES_");
            push_stem(s, v);
            s.append(",\n");
        },
    }
    assert(final(s)@ =~= old(s)@ + version_line(kind, v));
}

fn push_version_lines(s: &mut String, kind: VersionLine, ver: &Vec<VersionData>)
    ensures
        final(s)@ == old(s)@ + version_lines(kind, versions_of(ver@)),
{
    let ghost vs = versions_of(ver@);
    let mut i: usize = 0;
    while i < ver.len()
        invariant
            i <= ver@.len(),
            vs == versions_of(ver@),
            s@ == old(s)@ + version_lines(kind, vs.subrange(0, i as int)),
        decreases ver.len() - i,
    {
        let ghost pre = s@;
        push_version_line(s, kind, ver[i].version);
        assert(vs.subrange(0, i + 1).drop_last() =~= vs.subrange(0, i as int));
        assert(s@ =~= old(s)@ + version_lines(kind, vs.subrange(0, i + 1)));
        i += 1;
    }
    assert(vs.subrange(0, i as int) =~= vs);
}

/// The source of the version type for the scanned versions.
pub fn codegen_version_enum(ver: &Vec<VersionData>) -> (r: String)
    ensures
        r@ == version_enum_source(versions_of(ver@)),
{
    let mut s = String::from_str("#[derive(Clone, Copy)]\npub enum Version {\n");
    push_version_lines(&mut s, VersionLine::Variant, ver);
    s.append(
        "}\n\nimpl TryFrom<(u32, u32, u32)> for Version {\n    type Error = (u32, u32, u32);\n\n    fn try_from(v: (u32, u32, u32)) -> Result<Self, Self::Error> {\n        match v {\n",
    );
    push_version_lines(&mut s, VersionLine::Recognize, ver);
    s.append(
        "            other => Err(other),\n        }\n    }\n}\n\nimpl Version {\n    pub fn tuple(&self) -> (u8, u8, u8) {\n        match self {\n",
    );
    push_version_lines(&mut s, VersionLine::Number, ver);
    s.append(
        "        }\n    }\n}\n\nimpl From<Version> for BaseAddresses {\n    fn from(v: Version) -> Self {\n        match v {\n",
    );
    push_version_lines(&mut s, VersionLine::Table, ver);
    s.append("        }\n    }\n}\n\n");
    assert(s@ =~= version_enum_source(versions_of(ver@)));
    s
}

/// The tables of the given versions, one after the other.
pub open spec fn instances_source(ver: Seq<VersionData>) -> Seq<char>
    decreases ver.len(),
{
    if ver.len() == 0 {
        Seq::empty()
    } else {
        instances_source(ver.drop_last()) + instance_source(
            ver.last().version,
            ver.last().aobs@.map_values(|e: (String, usize)| (snake_case_of(e.0@), e.1 as int)),
        )
    }
}

/// The whole source of the tables: the table type, the version type, and the table of
/// every scanned version.
pub fn codegen_base_addresses(aobs: &Vec<Aob>, ver: &Vec<VersionData>) -> (r: String)
    ensures
        r@ == struct_source(aobs@.map_values(|a: Aob| snake_case_of(a.name@)))
            + version_enum_source(versions_of(ver@)) + instances_source(ver@),
{
    let mut s = codegen_base_addresses_struct(aobs);
    let e = codegen_version_enum(ver);
    s.append(e.as_str());
    let ghost head = s@;
    let mut i: usize = 0;
    while i < ver.len()
        invariant
            i <= ver@.len(),
            s@ == head + instances_source(ver@.subrange(0, i as int)),
        decreases ver.len() - i,
    {
        let ghost pre = s@;
        let t = codegen_base_addresses_instances(&ver[i].version, &ver[i].aobs);
        s.append(t.as_str());
        assert(ver@.subrange(0, i + 1).drop_last() =~= ver@.subrange(0, i as int));
        assert(s@ =~= head + instances_source(ver@.subrange(0, i + 1)));
        i += 1;
    }
    assert(ver@.subrange(0, i as int) =~= ver@);
    s
}

/// A feature to locate: its name, its one pattern, its hop offset and its addressing mode.
pub open spec fn is_feature(a: Aob, f: (Seq<char>, Seq<char>, usize, AddressingMode)) -> bool {
    &&& a.name@ == f.0
    &&& a.needles() == seq![needle_of(f.1)]
    &&& a.offset == f.2
    &&& a.mode == f.3
}

/// The features that the tool locates in each release.
pub open spec fn feature_list() -> Seq<(Seq<char>, Seq<char>, usize, AddressingMode)> {
    seq![
        ("Quitout"@, "48 8B 05 ?? ?? ?? ?? 48 63 C9 89 54 88 20 C3"@, 3usize, AddressingMode::Indirect { deref_offset: 7 }),
        ("RenderWorld"@, "80 3D ?? ?? ?? ?? 00 0F 10 00 0F 11 45 D0"@, 2usize, AddressingMode::Indirect { deref_offset: 7 }),
        ("DebugRender"@, "44 0F B6 3D ?? ?? ?? ?? 0F 29 74 24 20 0F 28 F1 E8"@, 4usize, AddressingMode::Indirect { deref_offset: 8 }),
        ("Igt"@, "48 8B 0D ?? ?? ?? ?? 0F 28 C6 F3 0F 59 05 ?? ?? ?? ?? F3 48 0F 2C C0 01 81 ?? ?? ?? ??"@, 3usize, AddressingMode::Indirect { deref_offset: 7 }),
        ("PlayerPosition"@, "48 83 3D ?? ?? ?? ?? 00 0F 84 ?? ?? ?? ?? F3 41 0F 10 47 78 F3 0F 5C C7"@, 3usize, AddressingMode::Indirect { deref_offset: 8 }),
        ("DebugFlags"@, "80 3D ?? ?? ?? ?? 00 75 08 32 C0 48 83 C4 20"@, 2usize, AddressingMode::Indirect { deref_offset: 7 }),
        ("ShowCursor"@, "40 38 3D ?? ?? ?? ?? 0F B6 DB 0F 44 DF 84 DB 0F 94 C3 83 7D 40 FF"@, 3usize, AddressingMode::Indirect { deref_offset: 7 }),
        ("NoLogo"@, "74 30 48 8D 54 24 30 48 8B CD E8 ?? ?? ?? ?? 90 BB 01 00 00 00 89 5C 24 20 44 0F B6 4E 04"@, 0usize, AddressingMode::Direct),
        ("FontPatch"@, "48 8b fa 49 8b f0 48 8b d9"@, 0usize, AddressingMode::Direct),
        ("DebugShow"@, "48 8B 05 ?? ?? ?? ?? 48 8B D9 48 85 C0 75 2E 48 8D 0D ?? ?? ?? ?? E8 ?? ?? ?? ?? 4C 8B C8 4C 8D 05 ?? ?? ?? ?? BA ?? ?? ?? ?? 48 8D 0D ?? ?? ?? ?? E8 ?? ?? ?? ?? 48 8B 05 ?? ?? ?? ?? 48 8B 80 ?? ?? ?? ?? 48 85 C0 75 07 48 8B 83 ?? ?? ?? ?? 48 83 C4 20 5B C3"@, 3usize, AddressingMode::Indirect { deref_offset: 7 }),
        ("GrappleDebug"@, "48 8B 05 ?? ?? ?? ?? 48 85 C0 75 2E 48 8D 0D ?? ?? ?? ?? E8 ?? ?? ?? ?? 4C 8B C8 4C 8D 05 ?? ?? ?? ?? BA ?? ?? ?? ?? 48 8D 0D ?? ?? ?? ?? E8 ?? ?? ?? ?? 48 8B 05 ?? ?? ?? ?? 48 8B 80 ?? ?? ?? ?? 48 8D 54 24 50 48 8D 4C 24 40 48 8B 58 08 E8 ?? ?? ?? ?? 4C 8D 4C 24 40 C7 44 24 28 ?? ?? ?? ?? 4C 8D 84 24 ?? ?? ?? ?? F3 0F 11 74 24 20"@, 3usize, AddressingMode::Indirect { deref_offset: 7 }),
    ]
}

/// The features that the tool locates in each release, with their patterns and how each
/// match becomes an address.
pub fn get_base_addresses() -> (r: Vec<Aob>)
    ensures
        r@.len() == feature_list().len(),
        forall|i: int| 0 <= i < r@.len() ==> is_feature(#[trigger] r@[i], feature_list()[i]),
{
    let mut r: Vec<Aob> = Vec::new();
    let a = Aob::new("Quitout", &["48 8B 05 ?? ?? ?? ?? 48 63 C9 89 54 88 20 C3"], 3, 7, true);
    assert(a.needles() =~= seq![needle_of("48 8B 05 ?? ?? ?? ?? 48 63 C9 89 54 88 20 C3"@)]);
    r.push(a);
    let a = Aob::new("RenderWorld", &["80 3D ?? ?? ?? ?? 00 0F 10 00 0F 11 45 D0"], 2, 7, true);
    assert(a.needles() =~= seq![needle_of("80 3D ?? ?? ?? ?? 00 0F 10 00 0F 11 45 D0"@)]);
    r.push(a);
    let a = Aob::new("DebugRender", &["44 0F B6 3D ?? ?? ?? ?? 0F 29 74 24 20 0F 28 F1 E8"], 4, 8, true);
    assert(a.needles() =~= seq![needle_of("44 0F B6 3D ?? ?? ?? ?? 0F 29 74 24 20 0F 28 F1 E8"@)]);
    r.push(a);
    let a = Aob::new("Igt", &["48 8B 0D ?? ?? ?? ?? 0F 28 C6 F3 0F 59 05 ?? ?? ?? ?? F3 48 0F 2C C0 01 81 ?? ?? ?? ??"], 3, 7, true);
    assert(a.needles() =~= seq![needle_of("48 8B 0D ?? ?? ?? ?? 0F 28 C6 F3 0F 59 05 ?? ?? ?? ?? F3 48 0F 2C C0 01 81 ?? ?? ?? ??"@)]);
    r.push(a);
    let a = Aob::new("PlayerPosition", &["48 83 3D ?? ?? ?? ?? 00 0F 84 ?? ?? ?? ?? F3 41 0F 10 47 78 F3 0F 5C C7"], 3, 8, true);
    assert(a.needles() =~= seq![needle_of("48 83 3D ?? ?? ?? ?? 00 0F 84 ?? ?? ?? ?? F3 41 0F 10 47 78 F3 0F 5C C7"@)]);
    r.push(a);
    let a = Aob::new("DebugFlags", &["80 3D ?? ?? ?? ?? 00 75 08 32 C0 48 83 C4 20"], 2, 7, true);
    assert(a.needles() =~= seq![needle_of("80 3D ?? ?? ?? ?? 00 75 08 32 C0 48 83 C4 20"@)]);
    r.push(a);
    let a = Aob::new("ShowCursor", &["40 38 3D ?? ?? ?? ?? 0F B6 DB 0F 44 DF 84 DB 0F 94 C3 83 7D 40 FF"], 3, 7, true);
    assert(a.needles() =~= seq![needle_of("40 38 3D ?? ?? ?? ?? 0F B6 DB 0F 44 DF 84 DB 0F 94 C3 83 7D 40 FF"@)]);
    r.push(a);
    let a = Aob::new("NoLogo", &["74 30 48 8D 54 24 30 48 8B CD E8 ?? ?? ?? ?? 90 BB 01 00 00 00 89 5C 24 20 44 0F B6 4E 04"], 0, 0, false);
    assert(a.needles() =~= seq![needle_of("74 30 48 8D 54 24 30 48 8B CD E8 ?? ?? ?? ?? 90 BB 01 00 00 00 89 5C 24 20 44 0F B6 4E 04"@)]);
    r.push(a);
    let a = Aob::new("FontPatch", &["48 8b fa 49 8b f0 48 8b d9"], 0, 0, false);
    assert(a.needles() =~= seq![needle_of("48 8b fa 49 8b f0 48 8b d9"@)]);
    r.push(a);
    let a = Aob::new("DebugShow", &["48 8B 05 ?? ?? ?? ?? 48 8B D9 48 85 C0 75 2E 48 8D 0D ?? ?? ?? ?? E8 ?? ?? ?? ?? 4C 8B C8 4C 8D 05 ?? ?? ?? ?? BA ?? ?? ?? ?? 48 8D 0D ?? ?? ?? ?? E8 ?? ?? ?? ?? 48 8B 05 ?? ?? ?? ?? 48 8B 80 ?? ?? ?? ?? 48 85 C0 75 07 48 8B 83 ?? ?? ?? ?? 48 83 C4 20 5B C3"], 3, 7, true);
    assert(a.needles() =~= seq![needle_of("48 8B 05 ?? ?? ?? ?? 48 8B D9 48 85 C0 75 2E 48 8D 0D ?? ?? ?? ?? E8 ?? ?? ?? ?? 4C 8B C8 4C 8D 05 ?? ?? ?? ?? BA ?? ?? ?? ?? 48 8D 0D ?? ?? ?? ?? E8 ?? ?? ?? ?? 48 8B 05 ?? ?? ?? ?? 48 8B 80 ?? ?? ?? ?? 48 85 C0 75 07 48 8B 83 ?? ?? ?? ?? 48 83 C4 20 5B C3"@)]);
    r.push(a);
    let a = Aob::new("GrappleDebug", &["48 8B 05 ?? ?? ?? ?? 48 85 C0 75 2E 48 8D 0D ?? ?? ?? ?? E8 ?? ?? ?? ?? 4C 8B C8 4C 8D 05 ?? ?? ?? ?? BA ?? ?? ?? ?? 48 8D 0D ?? ?? ?? ?? E8 ?? ?? ?? ?? 48 8B 05 ?? ?? ?? ?? 48 8B 80 ?? ?? ?? ?? 48 8D 54 24 50 48 8D 4C 24 40 48 8B 58 08 E8 ?? ?? ?? ?? 4C 8D 4C 24 40 C7 44 24 28 ?? ?? ?? ?? 4C 8D 84 24 ?? ?? ?? ?? F3 0F 11 74 24 20"], 3, 7, true);
    assert(a.needles() =~= seq![needle_of("48 8B 05 ?? ?? ?? ?? 48 85 C0 75 2E 48 8D 0D ?? ?? ?? ?? E8 ?? ?? ?? ?? 4C 8B C8 4C 8D 05 ?? ?? ?? ?? BA ?? ?? ?? ?? 48 8D 0D ?? ?? ?? ?? E8 ?? ?? ?? ?? 48 8B 05 ?? ?? ?? ?? 48 8B 80 ?? ?? ?? ?? 48 8D 54 24 50 48 8D 4C 24 40 48 8B 58 08 E8 ?? ?? ?? ?? 4C 8D 4C 24 40 C7 44 24 28 ?? ?? ?? ?? 4C 8D 84 24 ?? ?? ?? ?? F3 0F 11 74 24 20"@)]);
    r.push(a);
    r
}

} // verus!
