use vstd::prelude::*;

verus! {

/// Source span of the syntax that produced a dependency; kept for
/// diagnostics only.
#[derive(Clone, Copy, Debug, PartialEq, Eq, Hash)]
pub struct ErrorSpan {
    pub start: u32,
    pub end: u32,
}

/// The kind of edge a module has to another module or to the runtime.
#[derive(Clone, Debug, PartialEq, Eq, Hash)]
pub enum DependencyType {
    Unknown,
    ExportInfoApi,
    Entry,
    /// static `import` (harmony import)
    EsmImport(ErrorSpan),
    EsmImportSpecifier,
    /// `export` (harmony export)
    EsmExport(ErrorSpan),
    EsmExportImportedSpecifier,
    EsmExportSpecifier,
    /// `import()`
    DynamicImport,
    DynamicImportEager,
    /// `require()`
    CjsRequire,
    CjsFullRequire,
    CjsExports,
    CjsExportRequire,
    CjsSelfReference,
    /// `new URL("./foo", import.meta.url)`
    NewUrl,
    NewWorker,
    ImportMetaHotAccept,
    ImportMetaHotDecline,
    ModuleHotAccept,
    ModuleHotDecline,
    /// css `url()`
    CssUrl,
    /// css `@import`
    CssImport,
    CssCompose,
    ContextElement,
    ImportContext,
    ImportMetaContext,
    CommonJSRequireContext,
    RequireContext,
    RequireResolve,
    WasmImport,
    WasmExportImported,
    StaticExports,
    ContainerExposed,
    ContainerEntry,
    RemoteToExternal,
    RemoteToFallback,
    RemoteToFallbackItem,
    ProvideSharedModule,
    ProvideModuleForShared,
    ConsumeSharedFallback,
    WebpackIsIncluded,
    /// host-defined kind, carrying its own name
    Custom(String),
}

impl Default for DependencyType {
    fn default() -> (r: DependencyType)
        ensures
            r is Unknown,
    {
        DependencyType::Unknown
    }
}

impl DependencyType {
    /// Human-readable name of each kind; a custom kind embeds its name.
    pub open spec fn display_name(&self) -> Seq<char> {
        match self {
            DependencyType::Unknown => "unknown"@,
            DependencyType::ExportInfoApi => "export info api"@,
            DependencyType::Entry => "entry"@,
            DependencyType::EsmImport(_) => "esm import"@,
            DependencyType::EsmImportSpecifier => "esm import specifier"@,
            DependencyType::EsmExport(_) => "esm export"@,
            DependencyType::EsmExportImportedSpecifier => "esm export import specifier"@,
            DependencyType::EsmExportSpecifier => "esm export specifier"@,
            DependencyType::DynamicImport => "dynamic import"@,
            DependencyType::DynamicImportEager => "import() eager"@,
            DependencyType::CjsRequire => "cjs require"@,
            DependencyType::CjsFullRequire => "cjs full require"@,
            DependencyType::CjsExports => "cjs exports"@,
            DependencyType::CjsExportRequire => "cjs export require"@,
            DependencyType::CjsSelfReference => "cjs self exports reference"@,
            DependencyType::NewUrl => "new URL()"@,
            DependencyType::NewWorker => "new Worker()"@,
            DependencyType::ImportMetaHotAccept => "import.meta.webpackHot.accept"@,
            DependencyType::ImportMetaHotDecline => "import.meta.webpackHot.decline"@,
            DependencyType::ModuleHotAccept => "module.hot.accept"@,
            DependencyType::ModuleHotDecline => "module.hot.decline"@,
            DependencyType::CssUrl => "css url"@,
            DependencyType::CssImport => "css import"@,
            DependencyType::CssCompose => "css compose"@,
            DependencyType::ContextElement => "context element"@,
            DependencyType::ImportContext => "import context"@,
            DependencyType::ImportMetaContext => "import.meta context"@,
            DependencyType::CommonJSRequireContext => "commonjs require context"@,
            DependencyType::RequireContext => "require.context"@,
            DependencyType::RequireResolve => "require.resolve"@,
            DependencyType::WasmImport => "wasm import"@,
            DependencyType::WasmExportImported => "wasm export imported"@,
            DependencyType::StaticExports => "static exports"@,
            DependencyType::ContainerExposed => "container exposed"@,
            DependencyType::ContainerEntry => "container entry"@,
            DependencyType::RemoteToExternal => "remote to external"@,
            DependencyType::RemoteToFallback => "fallback"@,
            DependencyType::RemoteToFallbackItem => "fallback item"@,
            DependencyType::ProvideSharedModule => "provide shared module"@,
            DependencyType::ProvideModuleForShared => "provide module for shared"@,
            DependencyType::ConsumeSharedFallback => "consume shared fallback"@,
            DependencyType::WebpackIsIncluded => "__webpack_is_included__"@,
            DependencyType::Custom(name) => "custom "@ + name@,
        }
    }

    /// Which kind this is, leaving out the span and the custom name.
    pub open spec fn kind_index(&self) -> int {
        match self {
            DependencyType::Unknown => 0,
            DependencyType::ExportInfoApi => 1,
            DependencyType::Entry => 2,
            DependencyType::EsmImport(_) => 3,
            DependencyType::EsmImportSpecifier => 4,
            DependencyType::EsmExport(_) => 5,
            DependencyType::EsmExportImportedSpecifier => 6,
            DependencyType::EsmExportSpecifier => 7,
            DependencyType::DynamicImport => 8,
            DependencyType::DynamicImportEager => 9,
            DependencyType::CjsRequire => 10,
            DependencyType::CjsFullRequire => 11,
            DependencyType::CjsExports => 12,
            DependencyType::CjsExportRequire => 13,
            DependencyType::CjsSelfReference => 14,
            DependencyType::NewUrl => 15,
            DependencyType::NewWorker => 16,
            DependencyType::ImportMetaHotAccept => 17,
            DependencyType::ImportMetaHotDecline => 18,
            DependencyType::ModuleHotAccept => 19,
            DependencyType::ModuleHotDecline => 20,
            DependencyType::CssUrl => 21,
            DependencyType::CssImport => 22,
            DependencyType::CssCompose => 23,
            DependencyType::ContextElement => 24,
            DependencyType::ImportContext => 25,
            DependencyType::ImportMetaContext => 26,
            DependencyType::CommonJSRequireContext => 27,
            DependencyType::RequireContext => 28,
            DependencyType::RequireResolve => 29,
            DependencyType::WasmImport => 30,
            DependencyType::WasmExportImported => 31,
            DependencyType::StaticExports => 32,
            DependencyType::ContainerExposed => 33,
            DependencyType::ContainerEntry => 34,
            DependencyType::RemoteToExternal => 35,
            DependencyType::RemoteToFallback => 36,
            DependencyType::RemoteToFallbackItem => 37,
            DependencyType::ProvideSharedModule => 38,
            DependencyType::ProvideModuleForShared => 39,
            DependencyType::ConsumeSharedFallback => 40,
            DependencyType::WebpackIsIncluded => 41,
            DependencyType::Custom(_) => 42,
        }
    }

    pub fn as_str(&self) -> (r: String)
        ensures
            r@ == self.display_name(),
    {
        match self {
            DependencyType::Unknown => String::from_str("unknown"),
            DependencyType::ExportInfoApi => String::from_str("export info api"),
            DependencyType::Entry => String::from_str("entry"),
            DependencyType::EsmImport(_) => String::from_str("esm import"),
            DependencyType::EsmImportSpecifier => String::from_str("esm import specifier"),
            DependencyType::EsmExport(_) => String::from_str("esm export"),
            DependencyType::EsmExportImportedSpecifier => String::from_str("esm export import specifier"),
            DependencyType::EsmExportSpecifier => String::from_str("esm export specifier"),
            DependencyType::DynamicImport => String::from_str("dynamic import"),
            DependencyType::DynamicImportEager => String::from_str("import() eager"),
            DependencyType::CjsRequire => String::from_str("cjs require"),
            DependencyType::CjsFullRequire => String::from_str("cjs full require"),
            DependencyType::CjsExports => String::from_str("cjs exports"),
            DependencyType::CjsExportRequire => String::from_str("cjs export require"),
            DependencyType::CjsSelfReference => String::from_str("cjs self exports reference"),
            DependencyType::NewUrl => String::from_str("new URL()"),
            DependencyType::NewWorker => String::from_str("new Worker()"),
            DependencyType::ImportMetaHotAccept => String::from_str("import.meta.webpackHot.accept"),
            DependencyType::ImportMetaHotDecline => String::from_str("import.meta.webpackHot.decline"),
            DependencyType::ModuleHotAccept => String::from_str("module.hot.accept"),
            DependencyType::ModuleHotDecline => String::from_str("module.hot.decline"),
            DependencyType::CssUrl => String::from_str("css url"),
            DependencyType::CssImport => String::from_str("css import"),
            DependencyType::CssCompose => String::from_str("css compose"),
            DependencyType::ContextElement => String::from_str("context element"),
            DependencyType::ImportContext => String::from_str("import context"),
            DependencyType::ImportMetaContext => String::from_str("import.meta context"),
            DependencyType::CommonJSRequireContext => String::from_str("commonjs require context"),
            DependencyType::RequireContext => String::from_str("require.context"),
            DependencyType::RequireResolve => String::from_str("require.resolve"),
            DependencyType::WasmImport => String::from_str("wasm import"),
            DependencyType::WasmExportImported => String::from_str("wasm export imported"),
            DependencyType::StaticExports => String::from_str("static exports"),
            DependencyType::ContainerExposed => String::from_str("container exposed"),
            DependencyType::ContainerEntry => String::from_str("container entry"),
            DependencyType::RemoteToExternal => String::from_str("remote to external"),
            DependencyType::RemoteToFallback => String::from_str("fallback"),
            DependencyType::RemoteToFallbackItem => String::from_str("fallback item"),
            DependencyType::ProvideSharedModule => String::from_str("provide shared module"),
            DependencyType::ProvideModuleForShared => String::from_str("provide module for shared"),
            DependencyType::ConsumeSharedFallback => String::from_str("consume shared fallback"),
            DependencyType::WebpackIsIncluded => String::from_str("__webpack_is_included__"),
            DependencyType::Custom(name) => String::from_str("custom ").concat(name.as_str()),
        }
    }
}

/// Display names tell kinds apart: two dependency types with the same name
/// are of the same kind, and two custom kinds with the same name carry the
/// same name.
#[verifier::rlimit(100)]
pub proof fn lemma_display_name_injective(a: DependencyType, b: DependencyType)
    requires
        a.display_name() == b.display_name(),
    ensures
        a.kind_index() == b.kind_index(),
        a is Custom ==> b is Custom && a->Custom_0@ == b->Custom_0@,
{
    // Each name's length, and the characters at which it differs from the
    // other names of its length and from the custom prefix.
    reveal_strlit("unknown");
    assert("unknown"@.len() == 7);
    assert("unknown"@[0] == 'u');
    reveal_strlit("export info api");
    assert("export info api"@.len() == 15);
    assert("export info api"@[0] == 'e');
    reveal_strlit("entry");
    assert("entry"@.len() == 5);
    reveal_strlit("esm import");
    assert("esm import"@.len() == 10);
    assert("esm import"@[0] == 'e');
    assert("esm import"@[4] == 'i');
    reveal_strlit("esm import specifier");
    assert("esm import specifier"@.len() == 20);
    assert("esm import specifier"@[0] == 'e');
    assert("esm import specifier"@[4] == 'i');
    reveal_strlit("esm export");
    assert("esm export"@.len() == 10);
    assert("esm export"@[0] == 'e');
    assert("esm export"@[4] == 'e');
    reveal_strlit("esm export import specifier");
    assert("esm export import specifier"@.len() == 27);
    assert("esm export import specifier"@[0] == 'e');
    reveal_strlit("esm export specifier");
    assert("esm export specifier"@.len() == 20);
    assert("esm export specifier"@[0] == 'e');
    assert("esm export specifier"@[4] == 'e');
    reveal_strlit("dynamic import");
    assert("dynamic import"@.len() == 14);
    assert("dynamic import"@[0] == 'd');
    reveal_strlit("import() eager");
    assert("import() eager"@.len() == 14);
    assert("import() eager"@[0] == 'i');
    assert("import() eager"@[6] == '(');
    reveal_strlit("cjs require");
    assert("cjs require"@.len() == 11);
    assert("cjs require"@[0] == 'c');
    assert("cjs require"@[1] == 'j');
    assert("cjs require"@[4] == 'r');
    reveal_strlit("cjs full require");
    assert("cjs full require"@.len() == 16);
    assert("cjs full require"@[1] == 'j');
    reveal_strlit("cjs exports");
    assert("cjs exports"@.len() == 11);
    assert("cjs exports"@[0] == 'c');
    assert("cjs exports"@[1] == 'j');
    assert("cjs exports"@[4] == 'e');
    reveal_strlit("cjs export require");
    assert("cjs export require"@.len() == 18);
    assert("cjs export require"@[0] == 'c');
    assert("cjs export require"@[1] == 'j');
    reveal_strlit("cjs self exports reference");
    assert("cjs self exports reference"@.len() == 26);
    assert("cjs self exports reference"@[1] == 'j');
    reveal_strlit("new URL()");
    assert("new URL()"@.len() == 9);
    assert("new URL()"@[0] == 'n');
    reveal_strlit("new Worker()");
    assert("new Worker()"@.len() == 12);
    assert("new Worker()"@[0] == 'n');
    reveal_strlit("import.meta.webpackHot.accept");
    assert("import.meta.webpackHot.accept"@.len() == 29);
    assert("import.meta.webpackHot.accept"@[0] == 'i');
    reveal_strlit("import.meta.webpackHot.decline");
    assert("import.meta.webpackHot.decline"@.len() == 30);
    assert("import.meta.webpackHot.decline"@[0] == 'i');
    reveal_strlit("module.hot.accept");
    assert("module.hot.accept"@.len() == 17);
    assert("module.hot.accept"@[0] == 'm');
    reveal_strlit("module.hot.decline");
    assert("module.hot.decline"@.len() == 18);
    assert("module.hot.decline"@[0] == 'm');
    reveal_strlit("css url");
    assert("css url"@.len() == 7);
    assert("css url"@[0] == 'c');
    assert("css url"@[1] == 's');
    reveal_strlit("css import");
    assert("css import"@.len() == 10);
    assert("css import"@[0] == 'c');
    assert("css import"@[1] == 's');
    reveal_strlit("css compose");
    assert("css compose"@.len() == 11);
    assert("css compose"@[0] == 'c');
    assert("css compose"@[1] == 's');
    reveal_strlit("context element");
    assert("context element"@.len() == 15);
    assert("context element"@[0] == 'c');
    assert("context element"@[1] == 'o');
    assert("context element"@[4] == 'e');
    reveal_strlit("import context");
    assert("import context"@.len() == 14);
    assert("import context"@[0] == 'i');
    assert("import context"@[6] == ' ');
    reveal_strlit("import.meta context");
    assert("import.meta context"@.len() == 19);
    assert("import.meta context"@[0] == 'i');
    reveal_strlit("commonjs require context");
    assert("commonjs require context"@.len() == 24);
    assert("commonjs require context"@[1] == 'o');
    reveal_strlit("require.context");
    assert("require.context"@.len() == 15);
    assert("require.context"@[0] == 'r');
    assert("require.context"@[8] == 'c');
    reveal_strlit("require.resolve");
    assert("require.resolve"@.len() == 15);
    assert("require.resolve"@[0] == 'r');
    assert("require.resolve"@[8] == 'r');
    reveal_strlit("wasm import");
    assert("wasm import"@.len() == 11);
    assert("wasm import"@[0] == 'w');
    reveal_strlit("wasm export imported");
    assert("wasm export imported"@.len() == 20);
    assert("wasm export imported"@[0] == 'w');
    reveal_strlit("static exports");
    assert("static exports"@.len() == 14);
    assert("static exports"@[0] == 's');
    reveal_strlit("container exposed");
    assert("container exposed"@.len() == 17);
    assert("container exposed"@[0] == 'c');
    assert("container exposed"@[1] == 'o');
    reveal_strlit("container entry");
    assert("container entry"@.len() == 15);
    assert("container entry"@[0] == 'c');
    assert("container entry"@[1] == 'o');
    assert("container entry"@[4] == 'a');
    reveal_strlit("remote to external");
    assert("remote to external"@.len() == 18);
    assert("remote to external"@[0] == 'r');
    reveal_strlit("fallback");
    assert("fallback"@.len() == 8);
    assert("fallback"@[0] == 'f');
    reveal_strlit("fallback item");
    assert("fallback item"@.len() == 13);
    assert("fallback item"@[0] == 'f');
    reveal_strlit("provide shared module");
    assert("provide shared module"@.len() == 21);
    assert("provide shared module"@[0] == 'p');
    reveal_strlit("provide module for shared");
    assert("provide module for shared"@.len() == 25);
    assert("provide module for shared"@[0] == 'p');
    reveal_strlit("consume shared fallback");
    assert("consume shared fallback"@.len() == 23);
    assert("consume shared fallback"@[0] == 'c');
    assert("consume shared fallback"@[1] == 'o');
    reveal_strlit("__webpack_is_included__");
    assert("__webpack_is_included__"@.len() == 23);
    assert("__webpack_is_included__"@[0] == '_');
    reveal_strlit("custom ");
    assert("custom "@.len() == 7);
    assert("custom "@[0] == 'c');
    assert("custom "@[1] == 'u');
    assert("custom "@[2] == 's');
    assert("custom "@[3] == 't');
    assert("custom "@[4] == 'o');
    assert("custom "@[5] == 'm');
    assert("custom "@[6] == ' ');
    if a is Custom {
        assert(a.display_name().len() >= 7);
        assert forall|j: int| 0 <= j < 7 implies #[trigger] a.display_name()[j] == "custom "@[j] by {
        }
    }
    if b is Custom {
        assert(b.display_name().len() >= 7);
        assert forall|j: int| 0 <= j < 7 implies #[trigger] b.display_name()[j] == "custom "@[j] by {
        }
    }
    if a is Custom && b is Custom {
        assert(a->Custom_0@ =~= a.display_name().subrange(7, a.display_name().len() as int));
        assert(b->Custom_0@ =~= b.display_name().subrange(7, b.display_name().len() as int));
    }
}

} // verus!
