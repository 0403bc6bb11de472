//! The coordinate-system model and the axis-flip derivation.
//!
//! Eight handed axis conventions plus "unspecified" are supported.  The
//! sign multipliers needed to re-express data between two conventions are
//! derived per axis; rotation and spherical-harmonics signs follow as
//! fixed products of the position signs.  The format's internal canonical
//! system is Right-Up-Back.

use vstd::prelude::*;
use vstd::string::StrSliceExecFns;

verus! {

/// Supported 3D coordinate systems for Gaussian splat data.
///
/// The ordinal of each handed system is laid out so that bits 0, 1 and 2
/// of `ordinal - 1` encode the X, Y and Z axis choice.  Comparing any
/// system against `Unspecified` counts every axis as aligned, so no
/// conversion is applied.
#[derive(Debug, Clone, Copy, Default, PartialEq, Eq, Hash, Structural)]
pub enum CoordinateSystem {
    #[default]
    Unspecified,
    /// LDB.
    LeftDownBack,
    /// RDB.
    RightDownBack,
    /// LUB.
    LeftUpBack,
    /// RUB: the SPZ internal system, OpenGL, Three.js.
    RightUpBack,
    /// LDF.
    LeftDownFront,
    /// RDF: the PLY coordinate system.
    RightDownFront,
    /// LUF: the GLB coordinate system.
    LeftUpFront,
    /// RUF: the Unity coordinate system.
    RightUpFront,
}

/// The wire ordinal of a coordinate system: 0 for `Unspecified`, 1
/// through 8 for the handed systems.
pub open spec fn spec_ordinal(cs: CoordinateSystem) -> int {
    match cs {
        CoordinateSystem::Unspecified => 0,
        CoordinateSystem::LeftDownBack => 1,
        CoordinateSystem::RightDownBack => 2,
        CoordinateSystem::LeftUpBack => 3,
        CoordinateSystem::RightUpBack => 4,
        CoordinateSystem::LeftDownFront => 5,
        CoordinateSystem::RightDownFront => 6,
        CoordinateSystem::LeftUpFront => 7,
        CoordinateSystem::RightUpFront => 8,
    }
}

/// Axis-by-axis agreement of two coordinate systems; all-true when either
/// is `Unspecified`.
pub open spec fn spec_axes_align(a: CoordinateSystem, b: CoordinateSystem) -> (bool, bool, bool) {
    if a == CoordinateSystem::Unspecified || b == CoordinateSystem::Unspecified {
        (true, true, true)
    } else {
        let an = spec_ordinal(a) - 1;
        let bn = spec_ordinal(b) - 1;
        (an % 2 == bn % 2, (an / 2) % 2 == (bn / 2) % 2, (an / 4) % 2 == (bn / 4) % 2)
    }
}

/// The sign multiplier for one axis: `1` where the axes agree, `-1` where
/// they are opposite.
pub open spec fn spec_sign(aligned: bool) -> i8 {
    if aligned {
        1i8
    } else {
        -1i8
    }
}

/// Whether two coordinate systems agree on each of the three axes is the
/// same in either order.
pub proof fn lemma_axes_align_symmetric(a: CoordinateSystem, b: CoordinateSystem)
    ensures
        spec_axes_align(a, b) == spec_axes_align(b, a),
{
}

/// Every coordinate system is fully aligned with itself, so converting a
/// system to itself derives identity signs.
pub proof fn lemma_axes_align_self(a: CoordinateSystem)
    ensures
        spec_axes_align(a, a) == (true, true, true),
{
}

/// Comparing any system against the unspecified one counts every axis
/// as aligned, in either order, so no conversion is ever applied.
pub proof fn lemma_axes_align_unspecified(a: CoordinateSystem)
    ensures
        spec_axes_align(CoordinateSystem::Unspecified, a) == (true, true, true),
        spec_axes_align(a, CoordinateSystem::Unspecified) == (true, true, true),
{
}

impl CoordinateSystem {
    /// The wire ordinal of this coordinate system.
    pub fn ordinal(&self) -> (r: i32)
        ensures
            r == spec_ordinal(*self),
    {
        match self {
            CoordinateSystem::Unspecified => 0,
            CoordinateSystem::LeftDownBack => 1,
            CoordinateSystem::RightDownBack => 2,
            CoordinateSystem::LeftUpBack => 3,
            CoordinateSystem::RightUpBack => 4,
            CoordinateSystem::LeftDownFront => 5,
            CoordinateSystem::RightDownFront => 6,
            CoordinateSystem::LeftUpFront => 7,
            CoordinateSystem::RightUpFront => 8,
        }
    }

    /// All nine coordinate systems, in wire-ordinal order.
    pub fn variants() -> (r: Vec<CoordinateSystem>)
        ensures
            r@.len() == 9,
            forall|i: int| 0 <= i < 9 ==> spec_ordinal(r@[i]) == i,
    {
        let mut v = Vec::new();
        v.push(CoordinateSystem::Unspecified);
        v.push(CoordinateSystem::LeftDownBack);
        v.push(CoordinateSystem::RightDownBack);
        v.push(CoordinateSystem::LeftUpBack);
        v.push(CoordinateSystem::RightUpBack);
        v.push(CoordinateSystem::LeftDownFront);
        v.push(CoordinateSystem::RightDownFront);
        v.push(CoordinateSystem::LeftUpFront);
        v.push(CoordinateSystem::RightUpFront);
        v
    }

    /// The 3-letter abbreviation of the coordinate system: `L`/`R` for the
    /// X axis, `U`/`D` for Y, `F`/`B` for Z; `"UNSPECIFIED"` for
    /// [`CoordinateSystem::Unspecified`].
    pub fn as_short_str(&self) -> (r: &'static str)
        ensures
            (*self is Unspecified) ==> r@ == "UNSPECIFIED"@,
            (*self is LeftDownBack) ==> r@ == "LDB"@,
            (*self is RightDownBack) ==> r@ == "RDB"@,
            (*self is LeftUpBack) ==> r@ == "LUB"@,
            (*self is RightUpBack) ==> r@ == "RUB"@,
            (*self is LeftDownFront) ==> r@ == "LDF"@,
            (*self is RightDownFront) ==> r@ == "RDF"@,
            (*self is LeftUpFront) ==> r@ == "LUF"@,
            (*self is RightUpFront) ==> r@ == "RUF"@,
    {
        match self {
            CoordinateSystem::Unspecified => "UNSPECIFIED",
            CoordinateSystem::LeftDownBack => "LDB",
            CoordinateSystem::RightDownBack => "RDB",
            CoordinateSystem::LeftUpBack => "LUB",
            CoordinateSystem::RightUpBack => "RUB",
            CoordinateSystem::LeftDownFront => "LDF",
            CoordinateSystem::RightDownFront => "RDF",
            CoordinateSystem::LeftUpFront => "LUF",
            CoordinateSystem::RightUpFront => "RUF",
        }
    }

    /// The hyphenated long name of the coordinate system, such as
    /// `"Right-Up-Back"`; `"Unspecified"` for the unspecified system.
    pub fn as_long_str(&self) -> (r: &'static str)
        ensures
            (*self is Unspecified) ==> r@ == "Unspecified"@,
            (*self is LeftDownBack) ==> r@ == "Left-Down-Back"@,
            (*self is RightDownBack) ==> r@ == "Right-Down-Back"@,
            (*self is LeftUpBack) ==> r@ == "Left-Up-Back"@,
            (*self is RightUpBack) ==> r@ == "Right-Up-Back"@,
            (*self is LeftDownFront) ==> r@ == "Left-Down-Front"@,
            (*self is RightDownFront) ==> r@ == "Right-Down-Front"@,
            (*self is LeftUpFront) ==> r@ == "Left-Up-Front"@,
            (*self is RightUpFront) ==> r@ == "Right-Up-Front"@,
    {
        match self {
            CoordinateSystem::Unspecified => "Unspecified",
            CoordinateSystem::LeftDownBack => "Left-Down-Back",
            CoordinateSystem::RightDownBack => "Right-Down-Back",
            CoordinateSystem::LeftUpBack => "Left-Up-Back",
            CoordinateSystem::RightUpBack => "Right-Up-Back",
            CoordinateSystem::LeftDownFront => "Left-Down-Front",
            CoordinateSystem::RightDownFront => "Right-Down-Front",
            CoordinateSystem::LeftUpFront => "Left-Up-Front",
            CoordinateSystem::RightUpFront => "Right-Up-Front",
        }
    }

    /// Compares axis orientations between two coordinate systems: `true`
    /// per axis where both point the same way, all-true when either
    /// system is [`CoordinateSystem::Unspecified`].
    pub fn axes_align(self, other: CoordinateSystem) -> (r: (bool, bool, bool))
        ensures
            r == spec_axes_align(self, other),
    {
        let self_num = self.ordinal() - 1;
        let other_num = other.ordinal() - 1;
        if self_num < 0 || other_num < 0 {
            return (true, true, true);
        }
        let xm = self_num % 2 == other_num % 2;
        let ym = (self_num / 2) % 2 == (other_num / 2) % 2;
        let zm = (self_num / 4) % 2 == (other_num / 4) % 2;
        (xm, ym, zm)
    }

    /// Computes the axis-flip sign multipliers that convert data from
    /// `self` to `target`: position signs straight from the axis
    /// comparison, rotation signs as pairwise products, and the fixed
    /// 15-entry spherical-harmonics sign table.
    pub fn axis_flips_to(self, target: CoordinateSystem) -> (r: AxisFlips)
        ensures
            ({
                let (ax, ay, az) = spec_axes_align(self, target);
                &&& r.position@ == seq![spec_sign(ax), spec_sign(ay), spec_sign(az)]
                &&& r.rotation@ == seq![
                    spec_sign(ay == az),
                    spec_sign(ax == az),
                    spec_sign(ax == ay),
                ]
                &&& r.spherical_harmonics@ == seq![
                    spec_sign(ay),
                    spec_sign(az),
                    spec_sign(ax),
                    spec_sign(ax == ay),
                    spec_sign(ay == az),
                    1i8,
                    spec_sign(ax == az),
                    1i8,
                    spec_sign(ay),
                    spec_sign((ax == ay) == az),
                    spec_sign(ay),
                    spec_sign(az),
                    spec_sign(ax),
                    spec_sign(az),
                    spec_sign(ax),
                ]
            }),
            self == target ==> r.spec_is_identity(),
    {
        let (x_match, y_match, z_match) = self.axes_align(target);
        let x: i8 = if x_match { 1 } else { -1 };
        let y: i8 = if y_match { 1 } else { -1 };
        let z: i8 = if z_match { 1 } else { -1 };
        let r = AxisFlips {
            position: [x, y, z],
            rotation: [y * z, x * z, x * y],
            spherical_harmonics: [
                y,
                z,
                x,
                x * y,
                y * z,
                1,
                x * z,
                1,
                y,
                x * y * z,
                y,
                z,
                x,
                z,
                x,
            ],
        };
        proof {
            let (ax, ay, az) = spec_axes_align(self, target);
            assert(r.position@ =~= seq![spec_sign(ax), spec_sign(ay), spec_sign(az)]);
            assert(r.rotation@ =~= seq![
                spec_sign(ay == az),
                spec_sign(ax == az),
                spec_sign(ax == ay),
            ]);
            assert(r.spherical_harmonics@ =~= seq![
                spec_sign(ay),
                spec_sign(az),
                spec_sign(ax),
                spec_sign(ax == ay),
                spec_sign(ay == az),
                1i8,
                spec_sign(ax == az),
                1i8,
                spec_sign(ay),
                spec_sign((ax == ay) == az),
                spec_sign(ay),
                spec_sign(az),
                spec_sign(ax),
                spec_sign(az),
                spec_sign(ax),
            ]);
            if self == target {
                assert(r.spherical_harmonics@ =~= Seq::new(15, |i: int| 1i8));
            }
        }
        r
    }
}


/// `c` with an ASCII lowercase letter raised to its uppercase form;
/// every other character is unchanged.
pub open spec fn spec_upper_char(c: char) -> char {
    if c == 'a' {
        'A'
    } else if c == 'b' {
        'B'
    } else if c == 'c' {
        'C'
    } else if c == 'd' {
        'D'
    } else if c == 'e' {
        'E'
    } else if c == 'f' {
        'F'
    } else if c == 'g' {
        'G'
    } else if c == 'h' {
        'H'
    } else if c == 'i' {
        'I'
    } else if c == 'j' {
        'J'
    } else if c == 'k' {
        'K'
    } else if c == 'l' {
        'L'
    } else if c == 'm' {
        'M'
    } else if c == 'n' {
        'N'
    } else if c == 'o' {
        'O'
    } else if c == 'p' {
        'P'
    } else if c == 'q' {
        'Q'
    } else if c == 'r' {
        'R'
    } else if c == 's' {
        'S'
    } else if c == 't' {
        'T'
    } else if c == 'u' {
        'U'
    } else if c == 'v' {
        'V'
    } else if c == 'w' {
        'W'
    } else if c == 'x' {
        'X'
    } else if c == 'y' {
        'Y'
    } else if c == 'z' {
        'Z'
    } else {
        c
    }
}

/// The sequence `s` with each ASCII lowercase letter uppercased.
pub open spec fn spec_upper_chars(s: Seq<char>) -> Seq<char> {
    Seq::new(s.len(), |i: int| spec_upper_char(s[i]))
}

/// The coordinate system a name denotes, compared case-insensitively
/// against the short, concatenated, hyphenated and underscored forms;
/// any other name denotes the unspecified system.
pub open spec fn spec_coord_sys_from_str(s: Seq<char>) -> CoordinateSystem {
    let u = spec_upper_chars(s);
    if u == "LDB"@ || u == "LEFTDOWNBACK"@ || u == "LEFT-DOWN-BACK"@ || u == "LEFT_DOWN_BACK"@ {
        CoordinateSystem::LeftDownBack
    } else if u == "RDB"@ || u == "RIGHTDOWNBACK"@ || u == "RIGHT-DOWN-BACK"@ || u == "RIGHT_DOWN_BACK"@ {
        CoordinateSystem::RightDownBack
    } else if u == "LUB"@ || u == "LEFTUPBACK"@ || u == "LEFT-UP-BACK"@ || u == "LEFT_UP_BACK"@ {
        CoordinateSystem::LeftUpBack
    } else if u == "RUB"@ || u == "RIGHTUPBACK"@ || u == "RIGHT-UP-BACK"@ || u == "RIGHT_UP_BACK"@ {
        CoordinateSystem::RightUpBack
    } else if u == "LDF"@ || u == "LEFTDOWNFRONT"@ || u == "LEFT-DOWN-FRONT"@ || u == "LEFT_DOWN_FRONT"@ {
        CoordinateSystem::LeftDownFront
    } else if u == "RDF"@ || u == "RIGHTDOWNFRONT"@ || u == "RIGHT-DOWN-FRONT"@ || u == "RIGHT_DOWN_FRONT"@ {
        CoordinateSystem::RightDownFront
    } else if u == "LUF"@ || u == "LEFTUPFRONT"@ || u == "LEFT-UP-FRONT"@ || u == "LEFT_UP_FRONT"@ {
        CoordinateSystem::LeftUpFront
    } else if u == "RUF"@ || u == "RIGHTUPFRONT"@ || u == "RIGHT-UP-FRONT"@ || u == "RIGHT_UP_FRONT"@ {
        CoordinateSystem::RightUpFront
    } else {
        CoordinateSystem::Unspecified
    }
}

/// Uppercases an ASCII lowercase letter.
fn upper_char(c: char) -> (r: char)
    ensures
        r == spec_upper_char(c),
{
    match c {
        'a' => 'A',
        'b' => 'B',
        'c' => 'C',
        'd' => 'D',
        'e' => 'E',
        'f' => 'F',
        'g' => 'G',
        'h' => 'H',
        'i' => 'I',
        'j' => 'J',
        'k' => 'K',
        'l' => 'L',
        'm' => 'M',
        'n' => 'N',
        'o' => 'O',
        'p' => 'P',
        'q' => 'Q',
        'r' => 'R',
        's' => 'S',
        't' => 'T',
        'u' => 'U',
        'v' => 'V',
        'w' => 'W',
        'x' => 'X',
        'y' => 'Y',
        'z' => 'Z',
        _ => c,
    }
}

/// The characters of `s`, ASCII-uppercased.
fn upper_chars(s: &str) -> (r: Vec<char>)
    ensures
        r@ == spec_upper_chars(s@),
{
    let n = s.unicode_len();
    let mut v: Vec<char> = Vec::new();
    let mut i: usize = 0;
    while i < n
        invariant
            i <= n,
            n == s@.len(),
            v@.len() == i,
            forall|k: int| 0 <= k < i ==> v@[k] == spec_upper_char(s@[k]),
        decreases n - i,
    {
        v.push(upper_char(s.get_char(i)));
        i = i + 1;
    }
    proof {
        assert(v@ =~= spec_upper_chars(s@));
    }
    v
}

/// Whether `v` holds exactly the characters of `lit`.
fn chars_eq(v: &Vec<char>, lit: &str) -> (r: bool)
    ensures
        r == (v@ == lit@),
{
    let n = lit.unicode_len();
    if v.len() != n {
        proof {
            assert(v@.len() != lit@.len());
        }
        return false;
    }
    let mut i: usize = 0;
    while i < n
        invariant
            i <= n,
            n == lit@.len(),
            v@.len() == n,
            forall|k: int| 0 <= k < i ==> v@[k] == lit@[k],
        decreases n - i,
    {
        if v[i] != lit.get_char(i) {
            proof {
                assert(v@[i as int] != lit@[i as int]);
            }
            return false;
        }
        i = i + 1;
    }
    proof {
        assert(v@ =~= lit@);
    }
    true
}

/// Parses a coordinate-system name: the 3-letter abbreviation or the
/// concatenated, hyphenated or underscored long form, case-insensitive;
/// any other name falls back to the unspecified system.
pub fn coord_sys_from_str(s: &str) -> (r: CoordinateSystem)
    ensures
        r == spec_coord_sys_from_str(s@),
{
    let u = upper_chars(s);
    if chars_eq(&u, "LDB") || chars_eq(&u, "LEFTDOWNBACK") || chars_eq(&u, "LEFT-DOWN-BACK") || chars_eq(&u, "LEFT_DOWN_BACK") {
        CoordinateSystem::LeftDownBack
    } else if chars_eq(&u, "RDB") || chars_eq(&u, "RIGHTDOWNBACK") || chars_eq(&u, "RIGHT-DOWN-BACK") || chars_eq(&u, "RIGHT_DOWN_BACK") {
        CoordinateSystem::RightDownBack
    } else if chars_eq(&u, "LUB") || chars_eq(&u, "LEFTUPBACK") || chars_eq(&u, "LEFT-UP-BACK") || chars_eq(&u, "LEFT_UP_BACK") {
        CoordinateSystem::LeftUpBack
    } else if chars_eq(&u, "RUB") || chars_eq(&u, "RIGHTUPBACK") || chars_eq(&u, "RIGHT-UP-BACK") || chars_eq(&u, "RIGHT_UP_BACK") {
        CoordinateSystem::RightUpBack
    } else if chars_eq(&u, "LDF") || chars_eq(&u, "LEFTDOWNFRONT") || chars_eq(&u, "LEFT-DOWN-FRONT") || chars_eq(&u, "LEFT_DOWN_FRONT") {
        CoordinateSystem::LeftDownFront
    } else if chars_eq(&u, "RDF") || chars_eq(&u, "RIGHTDOWNFRONT") || chars_eq(&u, "RIGHT-DOWN-FRONT") || chars_eq(&u, "RIGHT_DOWN_FRONT") {
        CoordinateSystem::RightDownFront
    } else if chars_eq(&u, "LUF") || chars_eq(&u, "LEFTUPFRONT") || chars_eq(&u, "LEFT-UP-FRONT") || chars_eq(&u, "LEFT_UP_FRONT") {
        CoordinateSystem::LeftUpFront
    } else if chars_eq(&u, "RUF") || chars_eq(&u, "RIGHTUPFRONT") || chars_eq(&u, "RIGHT-UP-FRONT") || chars_eq(&u, "RIGHT_UP_FRONT") {
        CoordinateSystem::RightUpFront
    } else {
        CoordinateSystem::Unspecified
    }
}

impl core::str::FromStr for CoordinateSystem {
    type Err = ();

    fn from_str(s: &str) -> Result<CoordinateSystem, ()> {
        Ok(coord_sys_from_str(s))
    }
}

impl From<&str> for CoordinateSystem {
    fn from(s: &str) -> (r: CoordinateSystem) {
        coord_sys_from_str(s)
    }
}

impl vstd::std_specs::convert::FromSpecImpl<&str> for CoordinateSystem {
    open spec fn obeys_from_spec() -> bool {
        true
    }

    open spec fn from_spec(s: &str) -> CoordinateSystem {
        spec_coord_sys_from_str(s@)
    }
}

/// Sign multipliers, `1` or `-1` per component, for re-expressing splat
/// data in another coordinate system.
///
/// Positions take one sign per axis; quaternion rotations take one sign
/// per imaginary component (`w` is untouched); spherical harmonics take
/// one sign per coefficient index, broadcast over the color channels.
#[derive(Debug, Clone, Copy, PartialEq, Eq)]
pub struct AxisFlips {
    /// Sign multipliers for the X, Y and Z position coordinates.
    pub position: [i8; 3],
    /// Sign multipliers for the quaternion X, Y and Z components.
    pub rotation: [i8; 3],
    /// Sign multipliers for the 15 spherical-harmonics coefficients of
    /// degrees 1 through 3.
    pub spherical_harmonics: [i8; 15],
}

impl AxisFlips {
    /// Whether every sign of this flip set is `1`.
    pub open spec fn spec_is_identity(self) -> bool {
        &&& self.position@ == seq![1i8, 1i8, 1i8]
        &&& self.rotation@ == seq![1i8, 1i8, 1i8]
        &&& self.spherical_harmonics@ == Seq::new(15, |i: int| 1i8)
    }
}

impl Default for AxisFlips {
    /// The identity flip set: every sign is `1`.
    fn default() -> (r: AxisFlips)
        ensures
            r.spec_is_identity(),
    {
        let r = AxisFlips {
            position: [1, 1, 1],
            rotation: [1, 1, 1],
            spherical_harmonics: [1, 1, 1, 1, 1, 1, 1, 1, 1, 1, 1, 1, 1, 1, 1],
        };
        proof {
            assert(r.position@ =~= seq![1i8, 1i8, 1i8]);
            assert(r.rotation@ =~= seq![1i8, 1i8, 1i8]);
            assert(r.spherical_harmonics@ =~= Seq::new(15, |i: int| 1i8));
        }
        r
    }
}

} // verus!
