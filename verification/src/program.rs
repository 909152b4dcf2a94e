//! Program assembly: build options, the program builder, and the compiled
//! program handle.
//!
//! The builder collects directives and source-file paths, then turns them
//! into the exact source blocks and flag string handed to the native build
//! entry point.  Reading files and invoking the native build are the
//! caller's side of the boundary: `build` takes the file contents as values
//! and returns a fully assembled [`BuildRequest`], or the error that rules
//! the build out before any native call could be made.

use vstd::prelude::*;
use vstd::string::*;

use crate::enums::{ProgramBuildInfo, ProgramInfo};
use crate::error::{OclError, OclResult};
use crate::handles::ProgramCore;
use crate::standard::{spec_resolved, Context, Device, DeviceSpecifier, DeviceSpecifierView};
use crate::text::{dec_int, i32_to_string, join_spaced, join_with_spaces, str_contains_nul};

verus! {

/// A build option: a compiler command-line switch or a text block for
/// inclusion in the final build source.
#[derive(Clone, Debug, PartialEq)]
pub enum BuildOpt {
    CmplrDefine { ident: String, val: String },
    CmplrInclDir { path: String },
    CmplrOther(String),
    IncludeDefine { ident: String, val: String },
    IncludeCore(String),
    IncludeRawEof(String),
}

/// The mathematical shape of a [`BuildOpt`].
pub ghost enum BuildOptView {
    CmplrDefine { ident: Seq<char>, val: Seq<char> },
    CmplrInclDir { path: Seq<char> },
    CmplrOther(Seq<char>),
    IncludeDefine { ident: Seq<char>, val: Seq<char> },
    IncludeCore(Seq<char>),
    IncludeRawEof(Seq<char>),
}

impl View for BuildOpt {
    type V = BuildOptView;

    closed spec fn view(&self) -> BuildOptView {
        match self {
            BuildOpt::CmplrDefine { ident, val } => BuildOptView::CmplrDefine {
                ident: ident@,
                val: val@,
            },
            BuildOpt::CmplrInclDir { path } => BuildOptView::CmplrInclDir { path: path@ },
            BuildOpt::CmplrOther(s) => BuildOptView::CmplrOther(s@),
            BuildOpt::IncludeDefine { ident, val } => BuildOptView::IncludeDefine {
                ident: ident@,
                val: val@,
            },
            BuildOpt::IncludeCore(s) => BuildOptView::IncludeCore(s@),
            BuildOpt::IncludeRawEof(s) => BuildOptView::IncludeRawEof(s@),
        }
    }
}

impl DeepView for BuildOpt {
    type V = BuildOptView;

    open spec fn deep_view(&self) -> BuildOptView {
        self.view()
    }
}

impl BuildOpt {
    /// Returns a `BuildOpt::CmplrDefine`, rendering the value in decimal.
    pub fn cmplr_def(ident: &str, val: i32) -> (r: BuildOpt)
        ensures
            r@ == (BuildOptView::CmplrDefine { ident: ident@, val: dec_int(val as int) }),
    {
        BuildOpt::CmplrDefine { ident: String::from_str(ident), val: i32_to_string(val) }
    }

    /// Returns a `BuildOpt::CmplrOther`.
    pub fn cmplr_opt(opt: &str) -> (r: BuildOpt)
        ensures
            r@ == BuildOptView::CmplrOther(opt@),
    {
        BuildOpt::CmplrOther(String::from_str(opt))
    }

    /// Returns a `BuildOpt::IncludeDefine`.
    pub fn include_def(ident: &str, val: &str) -> (r: BuildOpt)
        ensures
            r@ == (BuildOptView::IncludeDefine { ident: ident@, val: val@ }),
    {
        BuildOpt::IncludeDefine { ident: String::from_str(ident), val: String::from_str(val) }
    }
}

/// True of options that contribute to the compiler command line.
pub open spec fn is_compiler_opt(o: BuildOptView) -> bool {
    o is CmplrDefine || o is CmplrInclDir || o is CmplrOther
}

/// True of options included at the head of the assembled source.
pub open spec fn is_include_head(o: BuildOptView) -> bool {
    o is IncludeDefine || o is IncludeCore
}

/// True of options appended after all source files.
pub open spec fn is_include_eof(o: BuildOptView) -> bool {
    o is IncludeRawEof
}

/// The source line generated for an include-time definition.
pub open spec fn define_line(ident: Seq<char>, val: Seq<char>) -> Seq<char> {
    "#define "@ + ident + "  "@ + val + "\n"@
}

/// The command-line token generated for a compiler option.
pub open spec fn compiler_token(o: BuildOptView) -> Seq<char> {
    match o {
        BuildOptView::CmplrDefine { ident, val } => "-D"@ + ident + "="@ + val,
        BuildOptView::CmplrInclDir { path } => "-I"@ + path,
        BuildOptView::CmplrOther(s) => s,
        _ => Seq::empty(),
    }
}

/// The source block generated for a head include option.
pub open spec fn include_block(o: BuildOptView) -> Seq<char> {
    match o {
        BuildOptView::IncludeDefine { ident, val } => define_line(ident, val),
        BuildOptView::IncludeCore(s) => s,
        _ => Seq::empty(),
    }
}

/// The source blocks contributed by head include options, in insertion
/// order.
pub open spec fn head_blocks(opts: Seq<BuildOptView>) -> Seq<Seq<char>>
    decreases opts.len(),
{
    if opts.len() == 0 {
        Seq::empty()
    } else if is_include_head(opts.last()) {
        head_blocks(opts.drop_last()).push(include_block(opts.last()))
    } else {
        head_blocks(opts.drop_last())
    }
}

/// The source blocks contributed by end-of-file options, in insertion
/// order.
pub open spec fn eof_blocks(opts: Seq<BuildOptView>) -> Seq<Seq<char>>
    decreases opts.len(),
{
    if opts.len() == 0 {
        Seq::empty()
    } else if is_include_eof(opts.last()) {
        eof_blocks(opts.drop_last()).push(opts.last()->IncludeRawEof_0)
    } else {
        eof_blocks(opts.drop_last())
    }
}

/// The command-line tokens contributed by compiler options, in insertion
/// order.
pub open spec fn compiler_tokens(opts: Seq<BuildOptView>) -> Seq<Seq<char>>
    decreases opts.len(),
{
    if opts.len() == 0 {
        Seq::empty()
    } else if is_compiler_opt(opts.last()) {
        compiler_tokens(opts.drop_last()).push(compiler_token(opts.last()))
    } else {
        compiler_tokens(opts.drop_last())
    }
}

/// The head section of the assembled source: one separator block, then the
/// head include blocks.
pub open spec fn kernel_includes(opts: Seq<BuildOptView>) -> Seq<Seq<char>> {
    seq!["\n"@] + head_blocks(opts)
}

/// The tail section of the assembled source: one separator block, then the
/// end-of-file blocks.
pub open spec fn kernel_includes_eof(opts: Seq<BuildOptView>) -> Seq<Seq<char>> {
    seq!["\n"@] + eof_blocks(opts)
}

/// The full compiler command line: a leading blank token, then one token
/// per compiler option, joined by spaces.
pub open spec fn compiler_options_text(opts: Seq<BuildOptView>) -> Seq<char> {
    join_spaced(seq![" "@] + compiler_tokens(opts))
}

/// The complete assembled source: head includes, then the file contents in
/// reverse file-list order, then the end-of-file includes.
pub open spec fn assembled_sources(opts: Seq<BuildOptView>, texts: Seq<Seq<char>>) -> Seq<
    Seq<char>,
> {
    kernel_includes(opts) + texts.reverse() + kernel_includes_eof(opts)
}

/// True when some block holds an embedded NUL character.
pub open spec fn any_has_nul(blocks: Seq<Seq<char>>) -> bool {
    exists|i: int| 0 <= i < blocks.len() && blocks[i].contains('\0')
}

/// The file list after appending `p`: unchanged when `p` is already
/// present, since a path is read only on its first encounter.
pub open spec fn add_src_file(files: Seq<Seq<char>>, p: Seq<char>) -> Seq<Seq<char>> {
    if files.contains(p) {
        files
    } else {
        files.push(p)
    }
}

/// True when no path occurs twice.
pub open spec fn no_duplicate_files(files: Seq<Seq<char>>) -> bool {
    forall|i: int, j: int| 0 <= i < j < files.len() ==> files[i] != files[j]
}

/// The selector state after a set attempt: the second component tells
/// whether the attempt was accepted.
pub open spec fn spec_set_device_spec(
    cur: Option<DeviceSpecifierView>,
    wanted: DeviceSpecifierView,
) -> (Option<DeviceSpecifierView>, bool) {
    match cur {
        Some(_) => (cur, false),
        None => (Some(wanted), true),
    }
}

/// True when a build is refused before any source or flag work: the
/// device selector is missing or resolves to zero devices.  A refused
/// build produces no [`BuildRequest`], and only a request can reach the
/// native build entry point.
pub open spec fn spec_build_rejected(b: ProgramBuilderView, available: Seq<Device>) -> bool {
    match b.device_spec {
        None => true,
        Some(ds) => match spec_resolved(ds, available) {
            None => true,
            Some(devs) => devs.len() == 0,
        },
    }
}

/// Law: the assembled source lists file contents in reverse add order —
/// the content block of a later-added file stands strictly before that
/// of an earlier-added one, and each listed file contributes exactly one
/// block, at a known position.
pub proof fn lemma_sources_reversed(
    opts: Seq<BuildOptView>,
    texts: Seq<Seq<char>>,
    i: int,
    j: int,
)
    requires
        0 <= i < j < texts.len(),
    ensures
        ({
            let blocks = assembled_sources(opts, texts);
            let pos_i = kernel_includes(opts).len() + texts.len() - 1 - i;
            let pos_j = kernel_includes(opts).len() + texts.len() - 1 - j;
            &&& pos_j < pos_i < blocks.len()
            &&& blocks[pos_i] == texts[i]
            &&& blocks[pos_j] == texts[j]
        }),
{
    let blocks = assembled_sources(opts, texts);
    let head = kernel_includes(opts).len() as int;
    assert(texts.reverse()[texts.len() - 1 - i] == texts[i]);
    assert(texts.reverse()[texts.len() - 1 - j] == texts[j]);
    assert(blocks[head + texts.len() - 1 - i] == texts.reverse()[texts.len() - 1 - i]);
    assert(blocks[head + texts.len() - 1 - j] == texts.reverse()[texts.len() - 1 - j]);
}

/// Law: adding a path a second time changes nothing — the list keeps
/// each path at most once, so a listed file is read from disk at most
/// once however often it is added.
pub proof fn lemma_add_src_file_once(files: Seq<Seq<char>>, p: Seq<char>)
    ensures
        add_src_file(add_src_file(files, p), p) == add_src_file(files, p),
        no_duplicate_files(files) ==> no_duplicate_files(add_src_file(files, p)),
        add_src_file(files, p).contains(p),
{
    if files.contains(p) {
        assert(add_src_file(files, p) == files);
    } else {
        let pushed = files.push(p);
        assert(pushed[files.len() as int] == p);
        assert(pushed.contains(p));
        assert(add_src_file(pushed, p) == pushed);
        if no_duplicate_files(files) {
            assert forall|a: int, b: int| 0 <= a < b < pushed.len() implies pushed[a]
                != pushed[b] by {
                if b < files.len() {
                    assert(pushed[a] == files[a] && pushed[b] == files[b]);
                } else {
                    assert(pushed[b] == p);
                    assert(pushed[a] == files[a]);
                    if files[a] == p {
                        assert(files.contains(p));
                    }
                }
            }
        }
    }
}

/// Law: the compiler command-line tokens are exactly the
/// compiler-category options, in their original relative order, mapped
/// to their rendered form — every source-category option is excluded.
pub proof fn lemma_compiler_tokens_filtered(opts: Seq<BuildOptView>)
    ensures
        compiler_tokens(opts) == opts.filter(|o: BuildOptView| is_compiler_opt(o)).map_values(
            |o: BuildOptView| compiler_token(o),
        ),
    decreases opts.len(),
{
    reveal(Seq::filter);
    let pred = |o: BuildOptView| is_compiler_opt(o);
    let render = |o: BuildOptView| compiler_token(o);
    if opts.len() == 0 {
        assert(compiler_tokens(opts) =~= opts.filter(pred).map_values(render));
    } else {
        let rest = opts.drop_last();
        lemma_compiler_tokens_filtered(rest);
        if is_compiler_opt(opts.last()) {
            assert(opts.filter(pred) == rest.filter(pred).push(opts.last()));
            assert(opts.filter(pred).map_values(render) =~= rest.filter(pred).map_values(
                render,
            ).push(compiler_token(opts.last())));
        } else {
            assert(opts.filter(pred) == rest.filter(pred));
        }
    }
}

/// Law: a device selector that resolves to zero devices — or a missing
/// selector — makes the build a rejected one: `build` then returns a
/// configuration error and no [`BuildRequest`] exists, so the native
/// build entry point cannot be reached.
pub proof fn lemma_zero_devices_rejected(b: ProgramBuilderView, available: Seq<Device>)
    requires
        match b.device_spec {
            None => true,
            Some(ds) => spec_resolved(ds, available) == Some(Seq::<Device>::empty()),
        },
    ensures
        spec_build_rejected(b, available),
{
}

/// Law: only the first device selector sticks: the first set attempt is
/// accepted, a second is refused, and the selector afterwards is still
/// the first one.
pub proof fn lemma_selector_set_once(first: DeviceSpecifierView, second: DeviceSpecifierView)
    ensures
        ({
            let (after_first, first_accepted) = spec_set_device_spec(None, first);
            let (after_second, second_accepted) = spec_set_device_spec(after_first, second);
            &&& first_accepted
            &&& !second_accepted
            &&& after_second == Some(first)
        }),
{
}

proof fn lemma_head_blocks_step(opts: Seq<BuildOptView>, i: int)
    requires
        0 <= i < opts.len(),
    ensures
        head_blocks(opts.take(i + 1)) == if is_include_head(opts[i]) {
            head_blocks(opts.take(i)).push(include_block(opts[i]))
        } else {
            head_blocks(opts.take(i))
        },
{
    let t = opts.take(i + 1);
    assert(t.len() == i + 1);
    assert(t.drop_last() =~= opts.take(i));
    assert(t.last() == opts[i]);
}

proof fn lemma_eof_blocks_step(opts: Seq<BuildOptView>, i: int)
    requires
        0 <= i < opts.len(),
    ensures
        eof_blocks(opts.take(i + 1)) == if is_include_eof(opts[i]) {
            eof_blocks(opts.take(i)).push(opts[i]->IncludeRawEof_0)
        } else {
            eof_blocks(opts.take(i))
        },
{
    let t = opts.take(i + 1);
    assert(t.len() == i + 1);
    assert(t.drop_last() =~= opts.take(i));
    assert(t.last() == opts[i]);
}

proof fn lemma_compiler_tokens_step(opts: Seq<BuildOptView>, i: int)
    requires
        0 <= i < opts.len(),
    ensures
        compiler_tokens(opts.take(i + 1)) == if is_compiler_opt(opts[i]) {
            compiler_tokens(opts.take(i)).push(compiler_token(opts[i]))
        } else {
            compiler_tokens(opts.take(i))
        },
{
    let t = opts.take(i + 1);
    assert(t.len() == i + 1);
    assert(t.drop_last() =~= opts.take(i));
    assert(t.last() == opts[i]);
}

/// True exactly when some built source block holds a NUL character.
fn blocks_contain_nul(blocks: &Vec<String>) -> (b: bool)
    ensures
        b == any_has_nul(blocks.deep_view()),
{
    let count = blocks.len();
    let mut i: usize = 0;
    while i < count
        invariant
            count == blocks@.len(),
            i <= count,
            forall|j: int| 0 <= j < i ==> !blocks.deep_view()[j].contains('\0'),
        decreases count - i,
    {
        if str_contains_nul(blocks[i].as_str()) {
            proof {
                assert(blocks.deep_view()[i as int].contains('\0'));
            }
            return true;
        }
        i = i + 1;
    }
    false
}

/// A builder for `Program`.
#[derive(Clone, Debug, PartialEq)]
pub struct ProgramBuilder {
    options: Vec<BuildOpt>,
    src_files: Vec<String>,
    device_spec: Option<DeviceSpecifier>,
}

/// The mathematical shape of a [`ProgramBuilder`].
pub ghost struct ProgramBuilderView {
    pub options: Seq<BuildOptView>,
    pub src_files: Seq<Seq<char>>,
    pub device_spec: Option<DeviceSpecifierView>,
}

impl View for ProgramBuilder {
    type V = ProgramBuilderView;

    closed spec fn view(&self) -> ProgramBuilderView {
        ProgramBuilderView {
            options: self.options.deep_view(),
            src_files: self.src_files.deep_view(),
            device_spec: self.device_spec.deep_view(),
        }
    }
}

/// Everything the native build entry point needs: the context and device
/// handles, the assembled source blocks and the flag string.
#[derive(Clone, Debug, PartialEq)]
pub struct BuildRequest {
    pub context_raw: usize,
    pub devices: Vec<Device>,
    pub src_strings: Vec<String>,
    pub cmplr_opts: String,
}

impl ProgramBuilder {
    /// Returns a new, empty build configuration.
    pub fn new() -> (b: ProgramBuilder)
        ensures
            b@.options == Seq::<BuildOptView>::empty(),
            b@.src_files == Seq::<Seq<char>>::empty(),
            b@.device_spec is None,
            no_duplicate_files(b@.src_files),
    {
        let b = ProgramBuilder { options: Vec::new(), src_files: Vec::new(), device_spec: None };
        proof {
            assert(b@.options =~= Seq::<BuildOptView>::empty());
            assert(b@.src_files =~= Seq::<Seq<char>>::empty());
        }
        b
    }

    /// Adds a compiler command-line definition, formatted as
    /// `-D{name}={val}`.
    pub fn cmplr_def(self, name: &str, val: i32) -> (r: ProgramBuilder)
        ensures
            r@.options =~= self@.options.push(
                BuildOptView::CmplrDefine { ident: name@, val: dec_int(val as int) },
            ),
            r@.src_files == self@.src_files,
            r@.device_spec == self@.device_spec,
    {
        self.bo(BuildOpt::cmplr_def(name, val))
    }

    /// Adds a verbatim compiler command-line parameter.
    pub fn cmplr_opt(self, co: &str) -> (r: ProgramBuilder)
        ensures
            r@.options =~= self@.options.push(BuildOptView::CmplrOther(co@)),
            r@.src_files == self@.src_files,
            r@.device_spec == self@.device_spec,
    {
        self.bo(BuildOpt::cmplr_opt(co))
    }

    /// Pushes a pre-created build option onto the list.
    pub fn bo(self, bo: BuildOpt) -> (r: ProgramBuilder)
        ensures
            r@.options =~= self@.options.push(bo@),
            r@.src_files == self@.src_files,
            r@.device_spec == self@.device_spec,
    {
        let ghost orig = self@;
        let mut b = self;
        b.options.push(bo);
        proof {
            assert(b@.options =~= orig.options.push(bo@));
        }
        b
    }

    /// Adds a kernel source file to the list.  A path already on the list
    /// is skipped, so each file is read at most once.
    pub fn src_file(self, file_path: &str) -> (r: ProgramBuilder)
        ensures
            r@.options == self@.options,
            r@.src_files =~= add_src_file(self@.src_files, file_path@),
            r@.device_spec == self@.device_spec,
            no_duplicate_files(self@.src_files) ==> no_duplicate_files(r@.src_files),
    {
        let path_string = String::from_str(file_path);
        let count = self.src_files.len();
        let mut i: usize = 0;
        while i < count
            invariant
                count == self.src_files@.len(),
                i <= count,
                path_string@ == file_path@,
                forall|j: int| 0 <= j < i ==> self@.src_files[j] != file_path@,
            decreases count - i,
        {
            if self.src_files[i] == path_string {
                proof {
                    assert(self@.src_files[i as int] == file_path@);
                    assert(self@.src_files.contains(file_path@));
                }
                return self;
            }
            i = i + 1;
        }
        proof {
            assert(!self@.src_files.contains(file_path@));
        }
        let ghost orig = self@;
        let mut b = self;
        b.src_files.push(path_string);
        proof {
            assert(b@.src_files =~= orig.src_files.push(file_path@));
        }
        b
    }

    /// Adds text for inclusion at the end of the assembled kernel source.
    pub fn src(self, src: &str) -> (r: ProgramBuilder)
        ensures
            r@.options =~= self@.options.push(BuildOptView::IncludeRawEof(src@)),
            r@.src_files == self@.src_files,
            r@.device_spec == self@.device_spec,
    {
        let block = String::from_str(src);
        self.bo(BuildOpt::IncludeRawEof(block))
    }

    /// Sets the device selector.  Only one selector is permitted per
    /// builder: a second attempt is a configuration error and leaves the
    /// first selector in place.
    pub fn devices(&mut self, device_spec: DeviceSpecifier) -> (r: OclResult<()>)
        ensures
            ({
                let (spec_after, accepted) = spec_set_device_spec(
                    old(self)@.device_spec,
                    device_spec@,
                );
                &&& final(self)@.device_spec == spec_after
                &&& final(self)@.options == old(self)@.options
                &&& final(self)@.src_files == old(self)@.src_files
                &&& (accepted ==> r is Ok)
                &&& (!accepted ==> (r matches Err(e) && e matches OclError::Configuration(m)
                    && m@ == "ocl::ProgramBuilder::devices: Devices already specified."@))
            }),
    {
        if self.device_spec.is_some() {
            Err(
                OclError::Configuration(
                    String::from_str("ocl::ProgramBuilder::devices: Devices already specified."),
                ),
            )
        } else {
            self.device_spec = Some(device_spec);
            Ok(())
        }
    }

    /// Returns the kernel source files added for inclusion in the build.
    pub fn get_src_file_names(&self) -> (r: &Vec<String>)
        ensures
            r.deep_view() == self@.src_files,
    {
        &self.src_files
    }

    /// Returns the configured device selector, if one was set.
    pub fn get_device_spec(&self) -> (r: &Option<DeviceSpecifier>)
        ensures
            r.deep_view() == self@.device_spec,
    {
        &self.device_spec
    }

    /// Collects the source blocks included at the head of the final
    /// program source: a separator, then each include-time definition or
    /// core text in insertion order.
    fn get_kernel_includes(&self) -> (r: OclResult<Vec<String>>)
        ensures
            match r {
                Ok(v) => !any_has_nul(kernel_includes(self@.options)) && v.deep_view()
                    =~= kernel_includes(self@.options),
                Err(e) => any_has_nul(kernel_includes(self@.options)) && (e
                    matches OclError::Encoding(m) && m@
                    == "ProgramBuilder: embedded NUL byte in program source."@),
            },
    {
        let mut strings: Vec<String> = Vec::new();
        strings.push(String::from_str("\n"));
        let count = self.options.len();
        let mut i: usize = 0;
        proof {
            assert(strings.deep_view() =~~= seq!["\n"@] + head_blocks(self@.options.take(0)));
        }
        while i < count
            invariant
                count == self.options@.len(),
                i <= count,
                strings.deep_view() =~~= seq!["\n"@] + head_blocks(self@.options.take(i as int)),
            decreases count - i,
        {
            proof {
                lemma_head_blocks_step(self@.options, i as int);
            }
            let ghost pre = strings.deep_view();
            match &self.options[i] {
                BuildOpt::IncludeDefine { ident, val } => {
                    let mut line = String::from_str("#define ");
                    line.append(ident.as_str());
                    line.append("  ");
                    line.append(val.as_str());
                    line.append("\n");
                    proof {
                        assert(line@ =~= define_line(ident@, val@));
                    }
                    strings.push(line);
                    proof {
                        assert(strings.deep_view() =~~= pre.push(define_line(ident@, val@)));
                    }
                },
                BuildOpt::IncludeCore(text) => {
                    proof {
                        assert(include_block(self@.options[i as int]) == text@);
                    }
                    strings.push(text.clone());
                    proof {
                        assert(strings.deep_view() =~~= pre.push(text@));
                    }
                },
                _ => {
                    proof {
                        assert(!is_include_head(self@.options[i as int]));
                        assert(strings.deep_view() =~~= pre);
                    }
                },
            }
            proof {
                assert(strings.deep_view() =~~= seq!["\n"@] + head_blocks(
                    self@.options.take(i + 1 as int),
                ));
            }
            i = i + 1;
        }
        proof {
            assert(self@.options.take(count as int) =~= self@.options);
        }
        if blocks_contain_nul(&strings) {
            return Err(
                OclError::Encoding(
                    String::from_str("ProgramBuilder: embedded NUL byte in program source."),
                ),
            );
        }
        Ok(strings)
    }

    /// Collects the source blocks appended after all source files: a
    /// separator, then each end-of-file text in insertion order.
    fn get_kernel_includes_eof(&self) -> (r: OclResult<Vec<String>>)
        ensures
            match r {
                Ok(v) => !any_has_nul(kernel_includes_eof(self@.options)) && v.deep_view()
                    =~= kernel_includes_eof(self@.options),
                Err(e) => any_has_nul(kernel_includes_eof(self@.options)) && (e
                    matches OclError::Encoding(m) && m@
                    == "ProgramBuilder: embedded NUL byte in program source."@),
            },
    {
        let mut strings: Vec<String> = Vec::new();
        strings.push(String::from_str("\n"));
        let count = self.options.len();
        let mut i: usize = 0;
        proof {
            assert(strings.deep_view() =~~= seq!["\n"@] + eof_blocks(self@.options.take(0)));
        }
        while i < count
            invariant
                count == self.options@.len(),
                i <= count,
                strings.deep_view() =~~= seq!["\n"@] + eof_blocks(self@.options.take(i as int)),
            decreases count - i,
        {
            proof {
                lemma_eof_blocks_step(self@.options, i as int);
            }
            let ghost pre = strings.deep_view();
            match &self.options[i] {
                BuildOpt::IncludeRawEof(text) => {
                    proof {
                        assert(self@.options[i as int]->IncludeRawEof_0 == text@);
                    }
                    strings.push(text.clone());
                    proof {
                        assert(strings.deep_view() =~~= pre.push(text@));
                    }
                },
                _ => {
                    proof {
                        assert(!is_include_eof(self@.options[i as int]));
                        assert(strings.deep_view() =~~= pre);
                    }
                },
            }
            proof {
                assert(strings.deep_view() =~~= seq!["\n"@] + eof_blocks(
                    self@.options.take(i + 1 as int),
                ));
            }
            i = i + 1;
        }
        proof {
            assert(self@.options.take(count as int) =~= self@.options);
        }
        if blocks_contain_nul(&strings) {
            return Err(
                OclError::Encoding(
                    String::from_str("ProgramBuilder: embedded NUL byte in program source."),
                ),
            );
        }
        Ok(strings)
    }

    /// Returns the concatenated compiler command-line options used when
    /// building: a leading blank token, then every compiler-category
    /// option in insertion order, space-joined.  Source-category options
    /// are excluded.
    pub fn get_compiler_options(&self) -> (r: OclResult<String>)
        ensures
            match r {
                Ok(s) => !compiler_options_text(self@.options).contains('\0') && s@
                    == compiler_options_text(self@.options),
                Err(e) => compiler_options_text(self@.options).contains('\0') && (e
                    matches OclError::Encoding(m) && m@
                    == "ProgramBuilder: embedded NUL byte in compiler options."@),
            },
    {
        let mut tokens: Vec<String> = Vec::new();
        tokens.push(String::from_str(" "));
        let count = self.options.len();
        let mut i: usize = 0;
        proof {
            assert(tokens.deep_view() =~~= seq![" "@] + compiler_tokens(self@.options.take(0)));
        }
        while i < count
            invariant
                count == self.options@.len(),
                i <= count,
                tokens.deep_view() =~~= seq![" "@] + compiler_tokens(self@.options.take(i as int)),
            decreases count - i,
        {
            proof {
                lemma_compiler_tokens_step(self@.options, i as int);
            }
            let ghost pre = tokens.deep_view();
            match &self.options[i] {
                BuildOpt::CmplrDefine { ident, val } => {
                    let mut token = String::from_str("-D");
                    token.append(ident.as_str());
                    token.append("=");
                    token.append(val.as_str());
                    proof {
                        assert(token@ =~= compiler_token(self@.options[i as int]));
                    }
                    tokens.push(token);
                    proof {
                        assert(tokens.deep_view() =~~= pre.push(
                            compiler_token(self@.options[i as int]),
                        ));
                    }
                },
                BuildOpt::CmplrInclDir { path } => {
                    let mut token = String::from_str("-I");
                    token.append(path.as_str());
                    proof {
                        assert(token@ =~= compiler_token(self@.options[i as int]));
                    }
                    tokens.push(token);
                    proof {
                        assert(tokens.deep_view() =~~= pre.push(
                            compiler_token(self@.options[i as int]),
                        ));
                    }
                },
                BuildOpt::CmplrOther(s) => {
                    proof {
                        assert(compiler_token(self@.options[i as int]) == s@);
                    }
                    tokens.push(s.clone());
                    proof {
                        assert(tokens.deep_view() =~~= pre.push(s@));
                    }
                },
                _ => {
                    proof {
                        assert(!is_compiler_opt(self@.options[i as int]));
                        assert(tokens.deep_view() =~~= pre);
                    }
                },
            }
            proof {
                assert(tokens.deep_view() =~~= seq![" "@] + compiler_tokens(
                    self@.options.take(i + 1 as int),
                ));
            }
            i = i + 1;
        }
        proof {
            assert(self@.options.take(count as int) =~= self@.options);
        }
        let joined = join_with_spaces(&tokens);
        if str_contains_nul(joined.as_str()) {
            return Err(
                OclError::Encoding(
                    String::from_str("ProgramBuilder: embedded NUL byte in compiler options."),
                ),
            );
        }
        Ok(joined)
    }

    /// Returns the final program source as a list of text blocks, in
    /// order: the head includes, the contents of every source file in
    /// reverse file-list order, and the end-of-file includes.
    /// `file_texts[i]` must be the contents of the i-th listed source
    /// file.
    pub fn get_src_strings(&self, file_texts: &Vec<String>) -> (r: OclResult<Vec<String>>)
        requires
            file_texts@.len() == self@.src_files.len(),
        ensures
            match r {
                Ok(v) => !any_has_nul(assembled_sources(self@.options, file_texts.deep_view()))
                    && v.deep_view() =~= assembled_sources(
                    self@.options,
                    file_texts.deep_view(),
                ),
                Err(e) => any_has_nul(assembled_sources(self@.options, file_texts.deep_view()))
                    && (e matches OclError::Encoding(m) && m@
                    == "ProgramBuilder: embedded NUL byte in program source."@),
            },
    {
        let ghost texts = file_texts.deep_view();
        let head = match self.get_kernel_includes() {
            Ok(v) => v,
            Err(e) => {
                proof {
                    let blocks = assembled_sources(self@.options, texts);
                    let k = choose|k: int|
                        0 <= k < kernel_includes(self@.options).len() && kernel_includes(
                            self@.options,
                        )[k].contains('\0');
                    assert(blocks[k].contains('\0'));
                }
                return Err(e);
            },
        };
        let mut blocks = head;
        let n = file_texts.len();
        let mut k: usize = 0;
        while k < n
            invariant
                n == file_texts@.len(),
                k <= n,
                texts == file_texts.deep_view(),
                blocks.deep_view() =~~= kernel_includes(self@.options) + texts.reverse().take(
                    k as int,
                ),
            decreases n - k,
        {
            let ghost pre = blocks.deep_view();
            blocks.push(file_texts[n - 1 - k].clone());
            proof {
                assert(blocks.deep_view() =~~= pre.push(texts[n - 1 - k as int]));
                assert(texts.reverse()[k as int] == texts[n - 1 - k as int]);
                assert(texts.reverse().take(k + 1 as int) =~~= texts.reverse().take(k as int).push(
                    texts.reverse()[k as int],
                ));
            }
            k = k + 1;
        }
        proof {
            assert(texts.reverse().take(n as int) =~~= texts.reverse());
        }
        let mut eof = match self.get_kernel_includes_eof() {
            Ok(v) => v,
            Err(e) => {
                proof {
                    let blocks_all = assembled_sources(self@.options, texts);
                    let k2 = choose|k2: int|
                        0 <= k2 < kernel_includes_eof(self@.options).len() && kernel_includes_eof(
                            self@.options,
                        )[k2].contains('\0');
                    assert(blocks_all[kernel_includes(self@.options).len() + texts.reverse().len()
                        + k2].contains('\0'));
                }
                return Err(e);
            },
        };
        let ghost pre_blocks = blocks.deep_view();
        let ghost eof_view = eof.deep_view();
        blocks.append(&mut eof);
        proof {
            assert(blocks.deep_view() =~~= pre_blocks + eof_view);
            assert(blocks.deep_view() =~~= assembled_sources(self@.options, texts));
        }
        if blocks_contain_nul(&blocks) {
            return Err(
                OclError::Encoding(
                    String::from_str("ProgramBuilder: embedded NUL byte in program source."),
                ),
            );
        }
        Ok(blocks)
    }

    /// Assembles everything the native build entry point needs, or the
    /// error that rules the build out before any native call is made.
    ///
    /// The device selector is resolved first: a selector that resolves to
    /// zero devices — or a missing selector — is a configuration error, so
    /// no build request is produced and no native call can occur.  The
    /// assembled sources and flags are then checked for embedded NUL
    /// bytes.  `file_texts[i]` must be the contents of the i-th listed
    /// source file.
    pub fn build(&self, context: &Context, file_texts: &Vec<String>) -> (r: OclResult<
        BuildRequest,
    >)
        requires
            file_texts@.len() == self@.src_files.len(),
        ensures
            spec_build_rejected(self@, context.devices@) ==> r is Err,
            ({
                let resolved = match self@.device_spec {
                    None => Some(Seq::<Device>::empty()),
                    Some(ds) => spec_resolved(ds, context.devices@),
                };
                let sources = assembled_sources(self@.options, file_texts.deep_view());
                let flags = compiler_options_text(self@.options);
                match resolved {
                    None => r matches Err(e) && e matches OclError::Configuration(m) && m@
                        == "DeviceSpecifier::to_device_list: Device index out of range."@,
                    Some(devs) => if devs.len() == 0 {
                        r matches Err(e) && e matches OclError::Configuration(m) && m@
                            == "ocl::ProgramBuilder::build: No devices found."@
                    } else if any_has_nul(sources) {
                        r matches Err(e) && e matches OclError::Encoding(m) && m@
                            == "ProgramBuilder: embedded NUL byte in program source."@
                    } else if flags.contains('\0') {
                        r matches Err(e) && e matches OclError::Encoding(m) && m@
                            == "ProgramBuilder: embedded NUL byte in compiler options."@
                    } else {
                        r matches Ok(req) && req.context_raw == context.raw && req.devices@ == devs
                            && req.src_strings.deep_view() =~= sources && req.cmplr_opts@ == flags
                    },
                }
            }),
    {
        let device_list: Vec<Device> = match &self.device_spec {
            Some(ds) => {
                match ds.to_device_list(&context.devices) {
                    Ok(v) => v,
                    Err(e) => {
                        return Err(e);
                    },
                }
            },
            None => Vec::new(),
        };
        if device_list.len() == 0 {
            return Err(
                OclError::Configuration(
                    String::from_str("ocl::ProgramBuilder::build: No devices found."),
                ),
            );
        }
        let src_strings = match self.get_src_strings(file_texts) {
            Ok(v) => v,
            Err(e) => {
                return Err(e);
            },
        };
        let cmplr_opts = match self.get_compiler_options() {
            Ok(s) => s,
            Err(e) => {
                return Err(e);
            },
        };
        Ok(
            BuildRequest {
                context_raw: context.raw,
                devices: device_list,
                src_strings,
                cmplr_opts,
            },
        )
    }
}

/// A program compiled for a specific device set.
#[derive(Clone, Debug, PartialEq)]
pub struct Program {
    pub obj_core: ProgramCore,
    pub devices: Vec<Device>,
}

/// An info query for the driver to perform on a program.
#[derive(Clone, Copy, Debug, PartialEq, Eq, Structural)]
pub struct ProgramInfoQuery {
    pub program: ProgramCore,
    pub kind: ProgramInfo,
}

/// A per-device build info query for the driver to perform.
#[derive(Clone, Copy, Debug, PartialEq, Eq, Structural)]
pub struct ProgramBuildInfoQuery {
    pub program: ProgramCore,
    pub device: Device,
    pub kind: ProgramBuildInfo,
}

impl Program {
    /// Returns a new `ProgramBuilder`.
    pub fn builder() -> (b: ProgramBuilder)
        ensures
            b@.options == Seq::<BuildOptView>::empty(),
            b@.src_files == Seq::<Seq<char>>::empty(),
            b@.device_spec is None,
            no_duplicate_files(b@.src_files),
    {
        ProgramBuilder::new()
    }

    /// Wraps the handle the native build call returned, together with the
    /// devices the program was built for.
    pub fn new(obj_core: ProgramCore, device_ids: &Vec<Device>) -> (p: Program)
        ensures
            p.obj_core == obj_core,
            p.devices@ == device_ids@,
    {
        Program { obj_core, devices: device_ids.clone() }
    }

    /// Returns the underlying program handle.
    pub fn core_as_ref(&self) -> (r: &ProgramCore)
        ensures
            *r == self.obj_core,
    {
        &self.obj_core
    }

    /// Returns the devices this program was built for.
    pub fn devices(&self) -> (r: &[Device])
        ensures
            r@ == self.devices@,
    {
        self.devices.as_slice()
    }

    /// The info query about this program for the driver to perform.
    pub fn info(&self, info_kind: ProgramInfo) -> (q: ProgramInfoQuery)
        ensures
            q.program == self.obj_core,
            q.kind == info_kind,
    {
        ProgramInfoQuery { program: self.obj_core, kind: info_kind }
    }

    /// The build info query about this program, on one device, for the
    /// driver to perform.
    pub fn build_info(&self, device: Device, info_kind: ProgramBuildInfo) -> (q:
        ProgramBuildInfoQuery)
        ensures
            q.program == self.obj_core,
            q.device == device,
            q.kind == info_kind,
    {
        ProgramBuildInfoQuery { program: self.obj_core, device, kind: info_kind }
    }
}

} // verus!
