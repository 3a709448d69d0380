use vstd::prelude::*;

use crate::dependency_type::DependencyType;

verus! {

/// Module kinds a stylesheet plugin handles.
#[derive(Clone, Copy, Debug, PartialEq, Eq, Hash, Structural)]
pub enum ModuleType {
    Css,
    CssModule,
    CssAuto,
}

impl ModuleType {
    pub open spec fn display_name(&self) -> Seq<char> {
        match self {
            ModuleType::Css => "css"@,
            ModuleType::CssModule => "css/module"@,
            ModuleType::CssAuto => "css/auto"@,
        }
    }

    pub fn as_str(&self) -> (r: &'static str)
        ensures
            r@ == self.display_name(),
    {
        match self {
            ModuleType::Css => "css",
            ModuleType::CssModule => "css/module",
            ModuleType::CssAuto => "css/auto",
        }
    }
}

/// The stylesheet plugin: what it registers with the bundler.
#[derive(Clone, Copy, Debug, PartialEq, Eq, Structural)]
pub struct CssPlugin {}

impl CssPlugin {
    pub fn name(&self) -> (r: &'static str)
        ensures
            r@ == "css"@,
    {
        "css"
    }

    /// The module kinds whose parser and generator this plugin provides; all
    /// share one builder.
    pub fn module_types(&self) -> (r: Vec<ModuleType>)
        ensures
            r@ == seq![ModuleType::Css, ModuleType::CssModule, ModuleType::CssAuto],
    {
        let mut r = Vec::new();
        r.push(ModuleType::Css);
        r.push(ModuleType::CssModule);
        r.push(ModuleType::CssAuto);
        assert(r@ =~= seq![ModuleType::Css, ModuleType::CssModule, ModuleType::CssAuto]);
        r
    }

    /// The dependency kinds that stylesheets produce, each resolved by the
    /// normal module factory.
    pub fn dependency_types(&self) -> (r: Vec<DependencyType>)
        ensures
            r@ == seq![DependencyType::CssUrl, DependencyType::CssImport, DependencyType::CssCompose],
    {
        let mut r = Vec::new();
        r.push(DependencyType::CssUrl);
        r.push(DependencyType::CssImport);
        r.push(DependencyType::CssCompose);
        assert(r@ =~= seq![
            DependencyType::CssUrl,
            DependencyType::CssImport,
            DependencyType::CssCompose,
        ]);
        r
    }
}

} // verus!
