use vstd::prelude::*;

use crate::code_generation::{CodeGenerationResults, SourceType};
use crate::hash::{
    digest, digest_bytes, le_bytes, push_bytes, push_le_bytes, push_str, str_feed,
    ContentDigest, HashOptions,
};
use crate::text::{replace_all, replace_all_str};

verus! {

/// The token a stylesheet holds where the public path is to be filled in.
pub const AUTO_PUBLIC_PATH_PLACEHOLDER: &'static str = "__RSPACK_PLUGIN_CSS_AUTO_PUBLIC_PATH__";

/// A member module of a chunk, as rendering sees it.
#[derive(Clone, Debug)]
pub struct ModuleInfo {
    /// key of the module in the code generation results
    pub handle: u64,
    /// the short identifier the module has in the output
    pub id: Option<String>,
    /// the module's library identifier, when it has one
    pub lib_ident: Option<String>,
    /// the textual form of the module's declared kind
    pub module_type: String,
}

#[derive(Clone, Copy, Debug, PartialEq, Eq, Structural)]
pub enum ChunkKind {
    Normal,
    HotUpdate,
}

/// The chunk being rendered.
#[derive(Clone, Copy, Debug, PartialEq, Eq, Structural)]
pub struct Chunk {
    pub kind: ChunkKind,
    pub runtime: u64,
}

/// What the host's path templating reports of an output file.
#[derive(Clone, Debug, PartialEq, Eq)]
pub struct AssetInfo {
    /// whether the file may be cached forever
    pub immutable: bool,
    /// the content hash the filename shows, if any
    pub content_hash: Option<String>,
}

/// One file to emit.
#[derive(Clone, Debug)]
pub struct RenderManifestEntry {
    pub source: String,
    pub filename: String,
    pub asset_info: AssetInfo,
    pub is_entry: bool,
    pub is_initial: bool,
}

pub open spec fn opt_view(s: Option<String>) -> Option<Seq<char>> {
    match s {
        Some(v) => Some(v@),
        None => None,
    }
}

pub uninterp spec fn debug_str_of(s: Seq<char>) -> Seq<char>;

/// Relies on the `Debug` formatting of `str`: the quoted, escaped text
/// depends on the characters alone.
#[verifier::external_body]
fn debug_quoted(s: &str) -> (r: String)
    ensures
        r@ == debug_str_of(s@),
{
    format!("{:?}", s)
}

/// The identifier a module's debug markers show.
pub open spec fn debug_id(m: ModuleInfo) -> Seq<char> {
    debug_str_of(
        match m.lib_ident {
            Some(s) => s@,
            None => "None"@,
        },
    )
}

pub open spec fn start_marker(m: ModuleInfo) -> Seq<char> {
    "/* #region "@ + debug_id(m) + " */\n"@ + "/*\n- type: "@ + m.module_type@ + "\n*/\n"@
}

pub open spec fn end_marker(m: ModuleInfo) -> Seq<char> {
    "/* #endregion "@ + debug_id(m) + " */\n\n"@
}

/// The markers around a module's fragment: none outside development mode.
pub open spec fn debug_markers(development: bool, m: ModuleInfo) -> (Seq<char>, Seq<char>) {
    if development {
        (start_marker(m), end_marker(m))
    } else {
        (Seq::empty(), Seq::empty())
    }
}

/// What one module adds to the rendered chunk.
pub open spec fn module_piece(
    development: bool,
    results: CodeGenerationResults,
    runtime: u64,
    kind: SourceType,
    m: ModuleInfo,
) -> Seq<char> {
    match results.find(m.handle, runtime, kind) {
        Some(e) => debug_markers(development, m).0 + e.source@ + "\n"@ + debug_markers(
            development,
            m,
        ).1,
        None => Seq::empty(),
    }
}

/// The rendered chunk: each module's piece, in the given order.
pub open spec fn rendered(
    development: bool,
    results: CodeGenerationResults,
    runtime: u64,
    kind: SourceType,
    mods: Seq<ModuleInfo>,
) -> Seq<char>
    decreases mods.len(),
{
    if mods.len() == 0 {
        Seq::empty()
    } else {
        rendered(development, results, runtime, kind, mods.drop_last()) + module_piece(
            development,
            results,
            runtime,
            kind,
            mods.last(),
        )
    }
}

/// What hashing a module's output identifier feeds.
pub open spec fn id_feed(id: Option<Seq<char>>) -> Seq<u8> {
    match id {
        Some(s) => le_bytes(1) + str_feed(s),
        None => le_bytes(0),
    }
}

/// What one module feeds to the content hash: its fragment digest, length
/// first, then its output identifier.
pub open spec fn module_feed(
    results: CodeGenerationResults,
    runtime: u64,
    kind: SourceType,
    m: ModuleInfo,
) -> Seq<u8> {
    match results.find(m.handle, runtime, kind) {
        Some(e) => le_bytes(e.hash@.len() as u64) + e.hash@ + id_feed(opt_view(m.id)),
        None => Seq::empty(),
    }
}

/// Everything the modules feed to the content hash, in order.
pub open spec fn hash_feed(
    results: CodeGenerationResults,
    runtime: u64,
    kind: SourceType,
    mods: Seq<ModuleInfo>,
) -> Seq<u8>
    decreases mods.len(),
{
    if mods.len() == 0 {
        Seq::empty()
    } else {
        hash_feed(results, runtime, kind, mods.drop_last()) + module_feed(
            results,
            runtime,
            kind,
            mods.last(),
        )
    }
}

pub open spec fn salt_feed(salt: Option<Seq<char>>) -> Seq<u8> {
    match salt {
        Some(s) => str_feed(s),
        None => Seq::empty(),
    }
}

/// Whether some module has a fragment of this kind.
pub open spec fn any_contributes(
    results: CodeGenerationResults,
    runtime: u64,
    kind: SourceType,
    mods: Seq<ModuleInfo>,
) -> bool {
    exists|i: int| 0 <= i < mods.len() && results.contains(#[trigger] mods[i].handle, runtime, kind)
}

/// The content hash of a chunk, or `None` when no module contributes.
pub open spec fn content_hash_of(
    options: HashOptions,
    results: CodeGenerationResults,
    runtime: u64,
    kind: SourceType,
    mods: Seq<ModuleInfo>,
) -> Option<Seq<u8>> {
    if any_contributes(results, runtime, kind, mods) {
        Some(
            digest_bytes(
                options.function,
                salt_feed(opt_view(options.salt)) + hash_feed(results, runtime, kind, mods),
            ),
        )
    } else {
        None
    }
}


/// Removing a module that has no fragment of the requested kind changes
/// neither the rendered chunk, nor whether any module contributes (and so
/// whether a file is emitted), nor the content hash.
pub proof fn lemma_absent_module_removable(
    development: bool,
    options: HashOptions,
    results: CodeGenerationResults,
    runtime: u64,
    kind: SourceType,
    mods: Seq<ModuleInfo>,
    i: int,
)
    requires
        0 <= i < mods.len(),
        !results.contains(mods[i].handle, runtime, kind),
    ensures
        rendered(development, results, runtime, kind, mods.remove(i)) == rendered(
            development,
            results,
            runtime,
            kind,
            mods,
        ),
        any_contributes(results, runtime, kind, mods.remove(i)) == any_contributes(
            results,
            runtime,
            kind,
            mods,
        ),
        content_hash_of(options, results, runtime, kind, mods.remove(i)) == content_hash_of(
            options,
            results,
            runtime,
            kind,
            mods,
        ),
    decreases mods.len(),
{
    lemma_absent_module_feeds(development, results, runtime, kind, mods, i);
    let rest = mods.remove(i);
    assert(any_contributes(results, runtime, kind, rest) == any_contributes(
        results,
        runtime,
        kind,
        mods,
    )) by {
        if any_contributes(results, runtime, kind, mods) {
            let j = choose|j: int|
                0 <= j < mods.len() && results.contains(#[trigger] mods[j].handle, runtime, kind);
            if j < i {
                assert(results.contains(rest[j].handle, runtime, kind));
            } else {
                assert(j != i);
                assert(rest[j - 1] == mods[j]);
                assert(results.contains(rest[j - 1].handle, runtime, kind));
            }
        }
        if any_contributes(results, runtime, kind, rest) {
            let j = choose|j: int|
                0 <= j < rest.len() && results.contains(#[trigger] rest[j].handle, runtime, kind);
            if j < i {
                assert(results.contains(mods[j].handle, runtime, kind));
            } else {
                assert(results.contains(mods[j + 1].handle, runtime, kind));
            }
        }
    }
}

proof fn lemma_absent_module_feeds(
    development: bool,
    results: CodeGenerationResults,
    runtime: u64,
    kind: SourceType,
    mods: Seq<ModuleInfo>,
    i: int,
)
    requires
        0 <= i < mods.len(),
        !results.contains(mods[i].handle, runtime, kind),
    ensures
        rendered(development, results, runtime, kind, mods.remove(i)) == rendered(
            development,
            results,
            runtime,
            kind,
            mods,
        ),
        hash_feed(results, runtime, kind, mods.remove(i)) == hash_feed(results, runtime, kind, mods),
    decreases mods.len(),
{
    let rest = mods.remove(i);
    if i == mods.len() - 1 {
        assert(rest =~= mods.drop_last());
        assert(module_piece(development, results, runtime, kind, mods.last()) =~= Seq::empty());
        assert(module_feed(results, runtime, kind, mods.last()) =~= Seq::empty());
        assert(rendered(development, results, runtime, kind, mods) =~= rendered(
            development,
            results,
            runtime,
            kind,
            rest,
        ) + Seq::empty());
        assert(hash_feed(results, runtime, kind, mods) =~= hash_feed(results, runtime, kind, rest)
            + Seq::empty());
    } else {
        lemma_absent_module_feeds(development, results, runtime, kind, mods.drop_last(), i);
        assert(rest.drop_last() =~= mods.drop_last().remove(i));
        assert(rest.last() == mods.last());
    }
}

/// Rendering and hashing read the code generation results only through the
/// member modules' entries: two stores that agree on those entries give the
/// same bytes and the same hash, so unchanged inputs give an unchanged hash.
pub proof fn lemma_same_entries_same_output(
    development: bool,
    options: HashOptions,
    results: CodeGenerationResults,
    other: CodeGenerationResults,
    runtime: u64,
    kind: SourceType,
    mods: Seq<ModuleInfo>,
)
    requires
        forall|i: int|
            0 <= i < mods.len() ==> results.find(#[trigger] mods[i].handle, runtime, kind)
                == other.find(mods[i].handle, runtime, kind),
    ensures
        rendered(development, results, runtime, kind, mods) == rendered(
            development,
            other,
            runtime,
            kind,
            mods,
        ),
        hash_feed(results, runtime, kind, mods) == hash_feed(other, runtime, kind, mods),
        content_hash_of(options, results, runtime, kind, mods) == content_hash_of(
            options,
            other,
            runtime,
            kind,
            mods,
        ),
    decreases mods.len(),
{
    if mods.len() > 0 {
        let last = mods.len() - 1;
        assert(results.find(mods[last].handle, runtime, kind) == other.find(
            mods[last].handle,
            runtime,
            kind,
        ));
        lemma_same_entries_same_output(
            development,
            options,
            results,
            other,
            runtime,
            kind,
            mods.drop_last(),
        );
    }
    assert(any_contributes(results, runtime, kind, mods) == any_contributes(
        other,
        runtime,
        kind,
        mods,
    )) by {
        assert forall|j: int| 0 <= j < mods.len() implies results.contains(
            #[trigger] mods[j].handle,
            runtime,
            kind,
        ) == other.contains(mods[j].handle, runtime, kind) by {
            assert(results.find(mods[j].handle, runtime, kind) == other.find(
                mods[j].handle,
                runtime,
                kind,
            ));
        }
    }
}

/// In development mode a present fragment is wrapped by a start and an end
/// marker that both show the module's debug identifier; outside it the
/// fragment stands alone, followed by a newline.
pub proof fn lemma_debug_markers(
    development: bool,
    results: CodeGenerationResults,
    runtime: u64,
    kind: SourceType,
    m: ModuleInfo,
)
    requires
        results.contains(m.handle, runtime, kind),
    ensures
        development ==> module_piece(development, results, runtime, kind, m) == start_marker(m)
            + results.find(m.handle, runtime, kind)->0.source@ + "\n"@ + end_marker(m),
        development ==> start_marker(m).subrange(11, 11 + debug_id(m).len() as int) == debug_id(m),
        development ==> end_marker(m).subrange(14, 14 + debug_id(m).len() as int) == debug_id(m),
        !development ==> module_piece(development, results, runtime, kind, m)
            == results.find(m.handle, runtime, kind)->0.source@ + "\n"@,
{
    reveal_strlit("/* #region ");
    reveal_strlit("/* #endregion ");
    assert(start_marker(m).subrange(11, 11 + debug_id(m).len() as int) =~= debug_id(m));
    assert(end_marker(m).subrange(14, 14 + debug_id(m).len() as int) =~= debug_id(m));
    assert(Seq::<char>::empty() + results.find(m.handle, runtime, kind)->0.source@ + "\n"@
        + Seq::<char>::empty() =~= results.find(m.handle, runtime, kind)->0.source@ + "\n"@);
}


/// Outside development mode, swapping two modules changes the rendered bytes
/// when their fragments differ and hold no newline.
pub proof fn lemma_swap_changes_render(
    results: CodeGenerationResults,
    runtime: u64,
    kind: SourceType,
    a: ModuleInfo,
    b: ModuleInfo,
)
    requires
        results.contains(a.handle, runtime, kind),
        results.contains(b.handle, runtime, kind),
        results.find(a.handle, runtime, kind)->0.source@ != results.find(
            b.handle,
            runtime,
            kind,
        )->0.source@,
        forall|k: int|
            0 <= k < results.find(a.handle, runtime, kind)->0.source@.len() ==> #[trigger] results.find(
                a.handle,
                runtime,
                kind,
            )->0.source@[k] != '\n',
        forall|k: int|
            0 <= k < results.find(b.handle, runtime, kind)->0.source@.len() ==> #[trigger] results.find(
                b.handle,
                runtime,
                kind,
            )->0.source@[k] != '\n',
    ensures
        rendered(false, results, runtime, kind, seq![a, b]) != rendered(
            false,
            results,
            runtime,
            kind,
            seq![b, a],
        ),
{
    reveal_strlit("\n");
    let sa = results.find(a.handle, runtime, kind)->0.source@;
    let sb = results.find(b.handle, runtime, kind)->0.source@;
    let pa = module_piece(false, results, runtime, kind, a);
    let pb = module_piece(false, results, runtime, kind, b);
    assert(pa =~= sa + "\n"@);
    assert(pb =~= sb + "\n"@);
    assert(seq![a, b].drop_last() =~= seq![a]);
    assert(seq![b, a].drop_last() =~= seq![b]);
    assert(seq![a].drop_last() =~= Seq::<ModuleInfo>::empty());
    assert(seq![b].drop_last() =~= Seq::<ModuleInfo>::empty());
    let x = rendered(false, results, runtime, kind, seq![a, b]);
    let y = rendered(false, results, runtime, kind, seq![b, a]);
    let e = Seq::<ModuleInfo>::empty();
    assert(rendered(false, results, runtime, kind, e) == Seq::<char>::empty());
    assert(rendered(false, results, runtime, kind, seq![a]) == rendered(false, results, runtime, kind, e) + pa);
    assert(rendered(false, results, runtime, kind, seq![b]) == rendered(false, results, runtime, kind, e) + pb);
    assert(x == rendered(false, results, runtime, kind, seq![a]) + pb);
    assert(y == rendered(false, results, runtime, kind, seq![b]) + pa);
    assert(x =~= pa + pb);
    assert(y =~= pb + pa);
    if sa.len() == sb.len() {
        assert(x.subrange(0, sa.len() as int) =~= sa);
        assert(y.subrange(0, sa.len() as int) =~= sb);
    } else if sa.len() < sb.len() {
        assert(x[sa.len() as int] == '\n');
        assert(y[sa.len() as int] == sb[sa.len() as int]);
    } else {
        assert(y[sb.len() as int] == '\n');
        assert(x[sb.len() as int] == sa[sb.len() as int]);
    }
}

/// Swapping two modules changes what the content hash is computed from when
/// their fragment digests differ and have the same length, as digests of one
/// algorithm do.
pub proof fn lemma_swap_changes_hash_feed(
    results: CodeGenerationResults,
    runtime: u64,
    kind: SourceType,
    a: ModuleInfo,
    b: ModuleInfo,
)
    requires
        results.contains(a.handle, runtime, kind),
        results.contains(b.handle, runtime, kind),
        results.find(a.handle, runtime, kind)->0.hash@ != results.find(b.handle, runtime, kind)->0.hash@,
        results.find(a.handle, runtime, kind)->0.hash@.len() == results.find(
            b.handle,
            runtime,
            kind,
        )->0.hash@.len(),
    ensures
        hash_feed(results, runtime, kind, seq![a, b]) != hash_feed(
            results,
            runtime,
            kind,
            seq![b, a],
        ),
{
    let da = results.find(a.handle, runtime, kind)->0.hash@;
    let db = results.find(b.handle, runtime, kind)->0.hash@;
    let fa = module_feed(results, runtime, kind, a);
    let fb = module_feed(results, runtime, kind, b);
    assert(seq![a, b].drop_last() =~= seq![a]);
    assert(seq![b, a].drop_last() =~= seq![b]);
    assert(seq![a].drop_last() =~= Seq::<ModuleInfo>::empty());
    assert(seq![b].drop_last() =~= Seq::<ModuleInfo>::empty());
    let x = hash_feed(results, runtime, kind, seq![a, b]);
    let y = hash_feed(results, runtime, kind, seq![b, a]);
    let e = Seq::<ModuleInfo>::empty();
    assert(hash_feed(results, runtime, kind, e) == Seq::<u8>::empty());
    assert(hash_feed(results, runtime, kind, seq![a]) == hash_feed(results, runtime, kind, e) + fa);
    assert(hash_feed(results, runtime, kind, seq![b]) == hash_feed(results, runtime, kind, e) + fb);
    assert(x == hash_feed(results, runtime, kind, seq![a]) + fb);
    assert(y == hash_feed(results, runtime, kind, seq![b]) + fa);
    assert(x =~= fa + fb);
    assert(y =~= fb + fa);
    assert(x.subrange(8, 8 + da.len() as int) =~= da);
    assert(y.subrange(8, 8 + db.len() as int) =~= db);
}

/// The debug markers that go around a module's fragment.
pub fn render_module_debug_info(development: bool, module: &ModuleInfo) -> (r: (String, String))
    ensures
        (r.0@, r.1@) == debug_markers(development, *module),
{
    if !development {
        return (String::new(), String::new());
    }
    let quoted = match &module.lib_ident {
        Some(s) => debug_quoted(s.as_str()),
        None => debug_quoted("None"),
    };
    let mut start = String::from_str("/* #region ");
    start.append(quoted.as_str());
    start.append(" */\n");
    start.append("/*\n- type: ");
    start.append(module.module_type.as_str());
    start.append("\n*/\n");
    let mut end = String::from_str("/* #endregion ");
    end.append(quoted.as_str());
    end.append(" */\n\n");
    assert(start@ =~= start_marker(*module));
    assert(end@ =~= end_marker(*module));
    (start, end)
}

/// The chunk's modules' fragments of one kind, in the given order, each
/// followed by a newline and, in development mode, wrapped in debug markers.
pub fn render_chunk_to_source(
    development: bool,
    results: &CodeGenerationResults,
    runtime: u64,
    kind: SourceType,
    modules: &Vec<ModuleInfo>,
) -> (r: String)
    requires
        results.wf(),
    ensures
        r@ == rendered(development, *results, runtime, kind, modules@),
{
    let mut out = String::new();
    let mut i: usize = 0;
    while i < modules.len()
        invariant
            i <= modules@.len(),
            results.wf(),
            out@ == rendered(development, *results, runtime, kind, modules@.subrange(0, i as int)),
        decreases modules.len() - i,
    {
        let module = &modules[i];
        let ghost before = out@;
        match results.get(module.handle, runtime, kind) {
            Some(entry) => {
                let (start, end) = render_module_debug_info(development, module);
                out.append(start.as_str());
                out.append(entry.source.as_str());
                out.append("\n");
                out.append(end.as_str());
            },
            None => {},
        }
        assert(modules@.subrange(0, i + 1).drop_last() =~= modules@.subrange(0, i as int));
        i += 1;
        assert(out@ =~= before + module_piece(
            development,
            *results,
            runtime,
            kind,
            modules@[i - 1],
        ));
    }
    assert(modules@.subrange(0, modules@.len() as int) =~= modules@);
    out
}

/// The content hash of a chunk's output of one kind: the salt, then for each
/// module with a fragment, in order, its fragment digest and its output
/// identifier. `None` when no module has a fragment of that kind.
pub fn content_hash(
    options: &HashOptions,
    results: &CodeGenerationResults,
    runtime: u64,
    kind: SourceType,
    modules: &Vec<ModuleInfo>,
) -> (r: Option<ContentDigest>)
    requires
        results.wf(),
    ensures
        match r {
            Some(d) => content_hash_of(*options, *results, runtime, kind, modules@) == Some(
                d.inner@,
            ) && d.well_formed(),
            None => content_hash_of(*options, *results, runtime, kind, modules@) is None,
        },
{
    let mut feed: Vec<u8> = Vec::new();
    match &options.salt {
        Some(s) => push_str(&mut feed, s.as_str()),
        None => {},
    }
    let ghost salt = feed@;
    assert(salt =~= salt_feed(opt_view(options.salt)));
    let mut any = false;
    let mut i: usize = 0;
    while i < modules.len()
        invariant
            i <= modules@.len(),
            results.wf(),
            feed@ == salt + hash_feed(*results, runtime, kind, modules@.subrange(0, i as int)),
            any == exists|j: int|
                0 <= j < i && results.contains(#[trigger] modules@[j].handle, runtime, kind),
        decreases modules.len() - i,
    {
        let module = &modules[i];
        let ghost before = feed@;
        match results.get(module.handle, runtime, kind) {
            Some(entry) => {
                any = true;
                push_le_bytes(&mut feed, entry.hash.len() as u64);
                push_bytes(&mut feed, entry.hash.as_slice());
                match &module.id {
                    Some(id) => {
                        push_le_bytes(&mut feed, 1);
                        push_str(&mut feed, id.as_str());
                    },
                    None => push_le_bytes(&mut feed, 0),
                }
            },
            None => {},
        }
        assert(modules@.subrange(0, i + 1).drop_last() =~= modules@.subrange(0, i as int));
        i += 1;
        assert(feed@ =~= before + module_feed(*results, runtime, kind, modules@[i - 1]));
    }
    assert(modules@.subrange(0, modules@.len() as int) =~= modules@);
    if any {
        Some(digest(options.function, &feed))
    } else {
        None
    }
}

/// Whether some module has a fragment of this kind.
pub fn any_fragment(
    results: &CodeGenerationResults,
    runtime: u64,
    kind: SourceType,
    modules: &Vec<ModuleInfo>,
) -> (r: bool)
    requires
        results.wf(),
    ensures
        r == any_contributes(*results, runtime, kind, modules@),
{
    let mut i: usize = 0;
    while i < modules.len()
        invariant
            i <= modules@.len(),
            results.wf(),
            forall|j: int|
                0 <= j < i ==> !results.contains(#[trigger] modules@[j].handle, runtime, kind),
        decreases modules.len() - i,
    {
        if results.get(modules[i].handle, runtime, kind).is_some() {
            return true;
        }
        i += 1;
    }
    false
}

/// The file a chunk renders to for one output kind, with each public-path
/// placeholder replaced by `public_path`. No file for a hot-update chunk or
/// for a chunk where no module has a fragment of the kind.
pub fn render_manifest(
    chunk: &Chunk,
    modules: &Vec<ModuleInfo>,
    results: &CodeGenerationResults,
    development: bool,
    kind: SourceType,
    output_path: &str,
    asset_info: AssetInfo,
    public_path: &str,
) -> (r: Vec<RenderManifestEntry>)
    requires
        results.wf(),
    ensures
        chunk.kind == ChunkKind::HotUpdate || !any_contributes(
            *results,
            chunk.runtime,
            kind,
            modules@,
        ) ==> r@.len() == 0,
        chunk.kind != ChunkKind::HotUpdate && any_contributes(
            *results,
            chunk.runtime,
            kind,
            modules@,
        ) ==> {
            &&& r@.len() == 1
            &&& r@[0].source@ == replace_all(
                rendered(development, *results, chunk.runtime, kind, modules@),
                AUTO_PUBLIC_PATH_PLACEHOLDER@,
                public_path@,
            )
            &&& r@[0].filename@ == output_path@
            &&& r@[0].asset_info == asset_info
            &&& !r@[0].is_entry
            &&& !r@[0].is_initial
        },
{
    if chunk.kind == ChunkKind::HotUpdate {
        return Vec::new();
    }
    if !any_fragment(results, chunk.runtime, kind, modules) {
        return Vec::new();
    }
    let source = render_chunk_to_source(development, results, chunk.runtime, kind, modules);
    proof {
        reveal_strlit("__RSPACK_PLUGIN_CSS_AUTO_PUBLIC_PATH__");
    }
    let content = replace_all_str(source.as_str(), AUTO_PUBLIC_PATH_PLACEHOLDER, public_path);
    let entry = RenderManifestEntry {
        source: content,
        filename: String::from_str(output_path),
        asset_info,
        is_entry: false,
        is_initial: false,
    };
    let mut r = Vec::new();
    r.push(entry);
    r
}

} // verus!
