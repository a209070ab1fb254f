use vstd::prelude::*;
use vstd::string::*;

verus! {

/// The closed set of element types that the compute kernels can be
/// specialized for, together with the device-side name of each scalar type.
#[derive(Clone, Copy, PartialEq, Eq, Structural, Hash, Debug)]
pub enum TypeMap {
    F16,
    F32,
    F64,
}

impl TypeMap {
    /// The device-side scalar type name bound to this element type.
    pub open spec fn spec_c_str(&self) -> Seq<char> {
        match self {
            TypeMap::F16 => "half"@,
            TypeMap::F32 => "float"@,
            TypeMap::F64 => "double"@,
        }
    }

    /// Returns the device-side scalar type name for this element type.
    pub fn c_str(&self) -> (r: &'static str)
        ensures
            r@ == self.spec_c_str(),
    {
        match self {
            TypeMap::F16 => "half",
            TypeMap::F32 => "float",
            TypeMap::F64 => "double",
        }
    }
}

/// The precision binding for one compute context: the element type together
/// with the floating-point capability flags that the chosen device reports
/// for that precision.
pub struct KernelType {
    static_repr: TypeMap,
    fp_config: u64,
}

impl KernelType {
    pub closed spec fn spec_type(&self) -> TypeMap {
        self.static_repr
    }

    pub closed spec fn spec_fp_config(&self) -> u64 {
        self.fp_config
    }

    /// Binds an element type to a device's floating-point capability report.
    /// `fp_config` is the device's capability bitfield for this precision, or
    /// `None` when the device reports no such capability; binding then fails.
    pub fn new(static_repr: TypeMap, fp_config: Option<u64>) -> (r: Option<KernelType>)
        ensures
            r is Some <==> fp_config is Some,
            r matches Some(k) ==> k.spec_type() == static_repr && Some(k.spec_fp_config())
                == fp_config,
    {
        match fp_config {
            Some(bits) => Some(KernelType { static_repr, fp_config: bits }),
            None => None,
        }
    }

    pub fn get_fp_config(&self) -> (r: u64)
        ensures
            r == self.spec_fp_config(),
    {
        self.fp_config
    }

    pub fn get_type(&self) -> (r: TypeMap)
        ensures
            r == self.spec_type(),
    {
        self.static_repr
    }
}

/// The capability attributes of one enumerated accelerator device, as the
/// platform layer reports them.
#[derive(Clone, Copy, PartialEq, Eq, Structural, Debug)]
pub struct DeviceProfile {
    pub max_compute_units: u32,
    pub max_clock_frequency: u32,
    pub max_work_group_size: usize,
    pub available: bool,
}

impl DeviceProfile {
    /// The performance heuristic that device selection scores each device by:
    /// compute units times clock frequency times work-group size, and zero
    /// for a device that is not available.
    pub open spec fn spec_score(&self) -> int {
        if self.available {
            self.max_compute_units * self.max_clock_frequency * self.max_work_group_size
        } else {
            0
        }
    }

    /// Computes this device's selection score.
    pub fn score(&self) -> (r: u128)
        ensures
            r == self.spec_score(),
    {
        if !self.available {
            return 0;
        }
        let cu = self.max_compute_units as u64;
        let cf = self.max_clock_frequency as u64;
        proof {
            assert(cu * cf < 0x1_0000_0000_0000_0000) by (nonlinear_arith)
                requires
                    cu < 0x1_0000_0000,
                    cf < 0x1_0000_0000,
            ;
        }
        let units_by_clock: u64 = cu * cf;
        let wg = self.max_work_group_size as u128;
        proof {
            assert((units_by_clock as u128) * wg < 0x1_0000_0000_0000_0000_0000_0000_0000_0000)
                by (nonlinear_arith)
                requires
                    (units_by_clock as u128) < 0x1_0000_0000_0000_0000,
                    wg < 0x1_0000_0000_0000_0000,
            ;
        }
        (units_by_clock as u128) * wg
    }
}

/// Everything that can go wrong while building a compute context, from
/// device discovery through source assembly to program compilation. The
/// `String` payloads carry the underlying diagnostic text reported by the
/// platform layer.
#[derive(Debug)]
pub enum KernelLoaderEr {
    /// The chosen device reports no floating-point capability for the
    /// requested element type.
    UnsupportedType,
    /// The kernel source directory could not be read.
    SrcDirReadError(String),
    /// The kernel source directory path is not usable.
    SrcDirError,
    /// A kernel source file could not be read.
    SrcReadError(String),
    /// The kernel source directory holds no kernel source files.
    SrcDirEmpty,
    /// No accelerator device with a positive score was found.
    NoDevice,
    /// Device enumeration failed on a platform.
    PlatformError(String),
    /// The command queue could not be created.
    QueueError(String),
    /// The device context could not be created.
    ContextError(String),
    /// The assembled program failed to compile; carries the device
    /// compiler's diagnostic text.
    CompileError(String),
}

/// Holds when `i` is the index that device selection must return for
/// `profiles`: a positive score no other device exceeds, and no earlier
/// device matches.
pub open spec fn is_selected_device(profiles: Seq<DeviceProfile>, i: int) -> bool {
    &&& 0 <= i < profiles.len()
    &&& profiles[i].spec_score() > 0
    &&& forall|j: int| 0 <= j < profiles.len() ==> profiles[j].spec_score()
        <= profiles[i].spec_score()
    &&& forall|j: int| 0 <= j < i ==> profiles[j].spec_score() < profiles[i].spec_score()
}

/// Holds when `needle` occurs contiguously somewhere in `hay`.
pub open spec fn spec_contains(hay: Seq<char>, needle: Seq<char>) -> bool {
    exists|i: int|
        0 <= i && i + needle.len() <= hay.len() && #[trigger] hay.subrange(i, i + needle.len())
            == needle
}

/// Collects the characters of `s` into a vector.
fn str_to_chars(s: &str) -> (r: Vec<char>)
    ensures
        r@ == s@,
{
    let n = s.unicode_len();
    let mut r: Vec<char> = Vec::new();
    let mut i: usize = 0;
    while i < n
        invariant
            n == s@.len(),
            i <= n,
            r@ == s@.take(i as int),
        decreases n - i,
    {
        r.push(s.get_char(i));
        proof {
            assert(s@.take(i + 1) =~= s@.take(i as int).push(s@[i as int]));
        }
        i = i + 1;
    }
    proof {
        assert(s@.take(n as int) =~= s@);
    }
    r
}

/// Decides whether `needle` occurs at position `at` of `hay`.
fn chars_match_at(hay: &Vec<char>, needle: &Vec<char>, at: usize) -> (b: bool)
    requires
        at + needle@.len() <= hay@.len(),
    ensures
        b == (hay@.subrange(at as int, at + needle@.len()) == needle@),
{
    let hay_len = hay.len();
    let mut j: usize = 0;
    while j < needle.len()
        invariant
            at + needle@.len() <= hay@.len(),
            hay_len == hay@.len(),
            j <= needle@.len(),
            forall|q: int| 0 <= q < j ==> hay@[at + q] == needle@[q],
        decreases needle@.len() - j,
    {
        if hay[at + j] != needle[j] {
            proof {
                assert(hay@.subrange(at as int, at + needle@.len())[j as int] == hay@[at + j]);
            }
            return false;
        }
        j = j + 1;
    }
    proof {
        assert(hay@.subrange(at as int, at + needle@.len()) =~= needle@);
    }
    true
}

/// Decides whether `needle` occurs contiguously anywhere in `hay`.
fn chars_contain(hay: &Vec<char>, needle: &Vec<char>) -> (b: bool)
    ensures
        b == spec_contains(hay@, needle@),
{
    if needle.len() > hay.len() {
        return false;
    }
    let last_start = hay.len() - needle.len();
    let mut i: usize = 0;
    while i <= last_start
        invariant
            needle@.len() <= hay@.len(),
            last_start == hay@.len() - needle@.len(),
            i <= last_start + 1,
            forall|p: int|
                0 <= p < i ==> #[trigger] hay@.subrange(p, p + needle@.len()) != needle@,
        decreases last_start + 1 - i,
    {
        if chars_match_at(hay, needle, i) {
            return true;
        }
        if i == last_start {
            return false;
        }
        i = i + 1;
    }
    false
}

/// Controls the list of operators that source assembly uses when it expands
/// an operator-generic kernel: one generated kernel per (operator symbol,
/// kernel name) pair.
pub struct KernelVariant {
    pub operator: Vec<String>,
    pub name: Vec<String>,
    pub length: usize,
}

/// The operator symbol of the `k`-th registered variant.
pub open spec fn spec_op_symbol(k: int) -> Seq<char> {
    if k == 0 {
        "+"@
    } else if k == 1 {
        "-"@
    } else if k == 2 {
        "*"@
    } else {
        "/"@
    }
}

/// The generated kernel name of the `k`-th registered variant.
pub open spec fn spec_kernel_name(k: int) -> Seq<char> {
    if k == 0 {
        "add"@
    } else if k == 1 {
        "sub"@
    } else if k == 2 {
        "mul"@
    } else {
        "div"@
    }
}

/// The one source file name registered as operator-generic.
pub open spec fn spec_registered_source() -> Seq<char> {
    "vec_arithmetic.cl"@
}

/// How many kernels an operator-generic source file expands into.
pub open spec fn spec_variant_count() -> int {
    4
}

/// The registry of operator-generic kernel templates, keyed by source file
/// name. A source file whose name is registered here and whose text holds
/// both placeholder tokens is expanded into one kernel per variant.
pub fn get_variants() -> (r: Vec<(String, KernelVariant)>)
    ensures
        r@.len() == 1,
        r@[0].0@ == spec_registered_source(),
        r@[0].1.operator@.len() == spec_variant_count(),
        r@[0].1.name@.len() == spec_variant_count(),
        r@[0].1.length == spec_variant_count(),
        forall|k: int|
            0 <= k < spec_variant_count() ==> (#[trigger] r@[0].1.operator@[k])@
                == spec_op_symbol(k),
        forall|k: int|
            0 <= k < spec_variant_count() ==> (#[trigger] r@[0].1.name@[k])@
                == spec_kernel_name(k),
{
    let mut operator: Vec<String> = Vec::new();
    operator.push(String::from_str("+"));
    operator.push(String::from_str("-"));
    operator.push(String::from_str("*"));
    operator.push(String::from_str("/"));
    let mut name: Vec<String> = Vec::new();
    name.push(String::from_str("add"));
    name.push(String::from_str("sub"));
    name.push(String::from_str("mul"));
    name.push(String::from_str("div"));
    let variant = KernelVariant { operator, name, length: 4 };
    let mut r: Vec<(String, KernelVariant)> = Vec::new();
    r.push((String::from_str("vec_arithmetic.cl"), variant));
    r
}

/// One kernel source file, as the caller read it from the kernel source
/// directory: the file's name and its text.
pub struct KernelSource {
    pub name: String,
    pub content: String,
}

/// The prefix that source assembly puts in front of every kernel source:
/// the precision macro naming the device-side scalar type, and the debug
/// macro when kernel diagnostics are requested.
pub open spec fn spec_global_prefix(t: TypeMap, kernel_debug: bool) -> Seq<char> {
    "#undef TYPE_T\n#define TYPE_T "@ + t.spec_c_str() + "\n"@ + if kernel_debug {
        "#define DEBUG\n"@
    } else {
        Seq::<char>::empty()
    }
}

/// The per-variant prefix that expansion of an operator-generic source puts
/// in front of the `k`-th copy: both variant macros are undefined first, so
/// that repeated expansion of the same base source never redefines a macro.
pub open spec fn spec_variant_prefix(k: int) -> Seq<char> {
    "#undef KERNEL_NAME\n#undef OPERATOR\n"@ + "#define OPERATOR "@ + spec_op_symbol(k) + "\n"@
        + "#define KERNEL_NAME "@ + spec_kernel_name(k) + "\n"@
}

/// Holds when a source file is treated as operator-generic: its text holds
/// both placeholder tokens and its name is registered in the variant table.
pub open spec fn spec_is_operator_generic(name: Seq<char>, content: Seq<char>) -> bool {
    spec_contains(content, "OPERATOR"@) && spec_contains(content, "KERNEL_NAME"@) && name
        == spec_registered_source()
}

/// The compiled units that one source file assembles into: four specialized
/// copies for an operator-generic file, and otherwise the file itself,
/// always behind the global precision prefix.
pub open spec fn spec_file_units(
    name: Seq<char>,
    content: Seq<char>,
    t: TypeMap,
    kernel_debug: bool,
) -> Seq<Seq<char>> {
    let prefixed = spec_global_prefix(t, kernel_debug) + content;
    if spec_is_operator_generic(name, content) {
        Seq::new(spec_variant_count() as nat, |k: int| spec_variant_prefix(k) + prefixed)
    } else {
        seq![prefixed]
    }
}

/// An operator-generic source file assembles into exactly one compiled
/// unit per registered variant, each specialized by that variant's macro
/// prefix; any other file assembles into exactly one unit, unchanged but
/// for the global precision prefix.
pub proof fn lemma_file_unit_count(name: Seq<char>, content: Seq<char>, t: TypeMap, debug: bool)
    ensures
        spec_is_operator_generic(name, content) ==> spec_file_units(name, content, t, debug).len()
            == spec_variant_count() && forall|k: int|
            0 <= k < spec_variant_count() ==> spec_file_units(name, content, t, debug)[k]
                == spec_variant_prefix(k) + (spec_global_prefix(t, debug) + content),
        !spec_is_operator_generic(name, content) ==> spec_file_units(name, content, t, debug)
            =~= seq![spec_global_prefix(t, debug) + content],
{
}

/// The compiled units that a whole list of source files assembles into, in
/// order of the list.
pub open spec fn spec_assembled(
    sources: Seq<KernelSource>,
    t: TypeMap,
    kernel_debug: bool,
) -> Seq<Seq<char>>
    decreases sources.len(),
{
    if sources.len() == 0 {
        Seq::<Seq<char>>::empty()
    } else {
        spec_assembled(sources.drop_last(), t, kernel_debug) + spec_file_units(
            sources.last().name@,
            sources.last().content@,
            t,
            kernel_debug,
        )
    }
}

/// Builds the global source prefix for one precision binding.
fn global_prefix(t: TypeMap, kernel_debug: bool) -> (r: String)
    ensures
        r@ == spec_global_prefix(t, kernel_debug),
{
    let mut s = String::from_str("#undef TYPE_T\n#define TYPE_T ");
    s.append(t.c_str());
    s.append("\n");
    if kernel_debug {
        s.append("#define DEBUG\n");
    }
    proof {
        assert(s@ =~= spec_global_prefix(t, kernel_debug));
    }
    s
}

/// Assembles every kernel source file into the list of compiled units that
/// the device program is built from: each file gets the global precision
/// prefix, and a registered operator-generic file is expanded into one
/// specialized copy per operator variant. Fails when no source file was
/// found.
#[verifier::loop_isolation(false)]
pub fn assemble(sources: &Vec<KernelSource>, t: TypeMap, kernel_debug: bool) -> (r: Result<
    Vec<String>,
    KernelLoaderEr,
>)
    ensures
        match r {
            Ok(units) => sources@.len() > 0 && units.deep_view() == spec_assembled(
                sources@,
                t,
                kernel_debug,
            ),
            Err(e) => e is SrcDirEmpty && sources@.len() == 0,
        },
{
    if sources.len() == 0 {
        return Err(KernelLoaderEr::SrcDirEmpty);
    }
    let prefix = global_prefix(t, kernel_debug);
    let op_token = str_to_chars("OPERATOR");
    let name_token = str_to_chars("KERNEL_NAME");
    let registered = String::from_str("vec_arithmetic.cl");
    let variants = get_variants();
    let mut units: Vec<String> = Vec::new();
    let mut i: usize = 0;
    while i < sources.len()
        invariant
            i <= sources@.len(),
            units.deep_view() == spec_assembled(sources@.take(i as int), t, kernel_debug),
        decreases sources@.len() - i,
    {
        let src = &sources[i];
        let content_chars = str_to_chars(src.content.as_str());
        let generic = chars_contain(&content_chars, &op_token) && chars_contain(
            &content_chars,
            &name_token,
        ) && src.name == registered;
        if generic {
            let variant = &variants[0].1;
            let mut k: usize = 0;
            while k < variant.length
                invariant
                    k <= spec_variant_count(),
                    units.deep_view() == spec_assembled(sources@.take(i as int), t, kernel_debug)
                        + Seq::new(
                        k as nat,
                        |q: int| spec_variant_prefix(q) + (spec_global_prefix(t, kernel_debug)
                            + src.content@),
                    ),
                decreases variant.length - k,
            {
                let mut u = String::from_str("#undef KERNEL_NAME\n#undef OPERATOR\n");
                u.append("#define OPERATOR ");
                u.append(variant.operator[k].as_str());
                u.append("\n");
                u.append("#define KERNEL_NAME ");
                u.append(variant.name[k].as_str());
                u.append("\n");
                u.append(prefix.as_str());
                u.append(src.content.as_str());
                proof {
                    assert(u@ =~= spec_variant_prefix(k as int) + (spec_global_prefix(
                        t,
                        kernel_debug,
                    ) + src.content@));
                }
                let ghost old_units = units.deep_view();
                units.push(u);
                proof {
                    assert(units.deep_view() =~= old_units.push(u@));
                    assert(old_units.push(u@) =~= spec_assembled(
                        sources@.take(i as int),
                        t,
                        kernel_debug,
                    ) + Seq::new(
                        (k + 1) as nat,
                        |q: int| spec_variant_prefix(q) + (spec_global_prefix(t, kernel_debug)
                            + src.content@),
                    ));
                }
                k = k + 1;
            }
        } else {
            let mut u = prefix.clone();
            u.append(src.content.as_str());
            proof {
                assert(u@ =~= spec_global_prefix(t, kernel_debug) + src.content@);
            }
            let ghost old_units = units.deep_view();
            units.push(u);
            proof {
                assert(units.deep_view() =~= old_units.push(u@));
            }
        }
        proof {
            assert(sources@.take(i + 1).drop_last() =~= sources@.take(i as int));
            assert(sources@.take(i + 1).last() == sources@[i as int]);
            assert(units.deep_view() =~= spec_assembled(sources@.take(i + 1), t, kernel_debug));
        }
        i = i + 1;
    }
    proof {
        assert(sources@.take(sources@.len() as int) =~= sources@);
    }
    Ok(units)
}

/// A compute context: the dispatch geometry, the precision binding, and the
/// assembled kernel source units that the platform layer compiles into the
/// device program. Built once, then shared read-only by every container
/// that references it.
pub struct KernelLoader {
    pub global_work_size: usize,
    pub local_work_size: usize,
    pub sources: Vec<String>,
    pub unsafe_fast_math: bool,
    pub kernel_type: KernelType,
}

impl KernelLoader {
    /// Builds a compute context for one precision on one chosen device.
    ///
    /// `device` is the selected device's capability profile and `fp_config`
    /// the floating-point capability bitfield it reports for the requested
    /// element type `t`, or `None` when it reports none; `sources` is the
    /// kernel source directory's contents. The dispatch geometry divides
    /// the device's work-group capacity by `threads`, the number of logical
    /// lanes that will share this context. Precision binding is checked
    /// before any source is assembled, and assembly before anything is
    /// handed to the device compiler; on any failure no context is
    /// returned.
    pub fn new(
        t: TypeMap,
        device: &DeviceProfile,
        fp_config: Option<u64>,
        sources: &Vec<KernelSource>,
        unsafe_fast_math: bool,
        kernel_debug: bool,
        threads: usize,
    ) -> (r: Result<KernelLoader, KernelLoaderEr>)
        requires
            threads >= 1,
        ensures
            r is Ok <==> fp_config is Some && sources@.len() > 0,
            r matches Ok(l) ==> {
                &&& l.global_work_size == device.max_work_group_size as int / threads as int
                &&& l.local_work_size == l.global_work_size
                &&& l.kernel_type.spec_type() == t
                &&& Some(l.kernel_type.spec_fp_config()) == fp_config
                &&& l.sources.deep_view() == spec_assembled(sources@, t, kernel_debug)
                &&& l.unsafe_fast_math == unsafe_fast_math
            },
            r matches Err(e) ==> {
                &&& e is UnsupportedType <==> fp_config is None
                &&& e is SrcDirEmpty <==> fp_config is Some && sources@.len() == 0
            },
    {
        let global_work_size = device.max_work_group_size / threads;
        let local_work_size = device.max_work_group_size / threads;
        let kernel_type = match KernelType::new(t, fp_config) {
            Some(k) => k,
            None => {
                return Err(KernelLoaderEr::UnsupportedType);
            },
        };
        let units = match assemble(sources, t, kernel_debug) {
            Ok(u) => u,
            Err(e) => {
                return Err(e);
            },
        };
        Ok(
            KernelLoader {
                global_work_size,
                local_work_size,
                sources: units,
                unsafe_fast_math,
                kernel_type,
            },
        )
    }

    /// Picks the accelerator device with the highest selection score from
    /// the enumerated devices. Devices scoring zero (in particular,
    /// unavailable ones) are excluded; ties go to the earliest device in
    /// enumeration order, so selection is reproducible.
    pub fn get_device(profiles: &Vec<DeviceProfile>) -> (r: Result<usize, KernelLoaderEr>)
        ensures
            match r {
                Ok(i) => is_selected_device(profiles@, i as int),
                Err(e) => e is NoDevice && forall|j: int|
                    0 <= j < profiles@.len() ==> profiles@[j].spec_score() == 0,
            },
    {
        let mut best: usize = 0;
        let mut best_score: u128 = 0;
        let mut found = false;
        let mut k: usize = 0;
        while k < profiles.len()
            invariant
                k <= profiles@.len(),
                found ==> best < k && best_score == profiles@[best as int].spec_score()
                    && best_score > 0,
                !found ==> best_score == 0,
                forall|j: int| 0 <= j < k ==> profiles@[j].spec_score() <= best_score,
                found ==> forall|j: int|
                    0 <= j < best ==> profiles@[j].spec_score() < best_score,
            decreases profiles@.len() - k,
        {
            let s = profiles[k].score();
            if s > best_score {
                best = k;
                best_score = s;
                found = true;
            }
            k = k + 1;
        }
        if found {
            Ok(best)
        } else {
            Err(KernelLoaderEr::NoDevice)
        }
    }
}

/// Selection is deterministic: the selected index is unique for a given
/// device list, so repeated enumerations of the same devices pick the same
/// one even when several devices share the maximal score.
pub proof fn lemma_selected_device_unique(profiles: Seq<DeviceProfile>, i1: int, i2: int)
    requires
        is_selected_device(profiles, i1),
        is_selected_device(profiles, i2),
    ensures
        i1 == i2,
{
    if i1 < i2 {
        assert(profiles[i1].spec_score() < profiles[i2].spec_score());
        assert(profiles[i2].spec_score() <= profiles[i1].spec_score());
    } else if i2 < i1 {
        assert(profiles[i2].spec_score() < profiles[i1].spec_score());
        assert(profiles[i1].spec_score() <= profiles[i2].spec_score());
    }
}

} // verus!
