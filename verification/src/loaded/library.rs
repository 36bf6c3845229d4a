//! The memoized set of loaded native libraries and registered module
//! interfaces.
//!
//! Opening a native library is expensive and its handle must stay alive as
//! long as any interface constructed from it, so the set owns every handle
//! for the lifetime of the process and opens each distinct path at most
//! once: asking for a path a second time hands back the entry that is
//! already there.

use vstd::prelude::*;

verus! {

use crate::config::module::DYLIB_EXT;
use crate::error::Error;
use crate::error::ErrorView;
use crate::text::join_path;
use crate::text::joined_path;
use crate::text::str_eq;

/// The native library handle type of the loader.
#[verifier::external_type_specification]
#[verifier::external_body]
pub struct ExLibrary(libloading::Library);

/// Relies on libloading::Library::new: opens the native library at
/// `path`, failing when nothing loadable is there. The outcome depends on
/// the filesystem, so nothing is promised beyond the shape of the result;
/// on failure the error's message is handed back.
#[verifier::external_body]
fn open_native_library(path: &str) -> Result<libloading::Library, String> {
    libloading::Library::new(path).map_err(|e| e.to_string())
}

/// One opened native library: the path it was opened from and the live
/// handle.
pub struct LoadedLibrary {
    pub path: String,
    pub library: libloading::Library,
}

impl crate::diagnostics::Id for LoadedLibrary {
    type Identifier = Seq<char>;

    /// A loaded library is identified by the path it was opened from.
    open spec fn id_spec(&self) -> Seq<char> {
        self.path@
    }

    fn same_id(&self, other: &LoadedLibrary) -> (r: bool) {
        str_eq(self.path.as_str(), other.path.as_str())
    }

    open spec fn description_spec(&self) -> Seq<char> {
        "library"@
    }

    fn description(&self) -> (r: &'static str) {
        "library"
    }
}

/// One registered module: the name it was registered under and the
/// interface value the host constructed for it.
pub struct LoadedModule<I> {
    name: String,
    interface: I,
}

impl<I> LoadedModule<I> {
    /// The name the module was registered under.
    pub closed spec fn name_spec(&self) -> Seq<char> {
        self.name@
    }

    /// The interface the module was registered with.
    pub closed spec fn interface_spec(&self) -> &I {
        &self.interface
    }

    /// The name the module was registered under.
    pub fn name(&self) -> (r: &str)
        ensures
            r@ == self.name_spec(),
    {
        self.name.as_str()
    }

    /// The interface the module was registered with.
    pub fn interface(&self) -> (r: &I)
        ensures
            r == self.interface_spec(),
    {
        &self.interface
    }
}

/// The memoized set of loaded libraries, the registered interfaces, and
/// the default directory used to resolve a module name to a library path.
pub struct LoadedModuleSet<I> {
    default_path: String,
    libraries: Vec<LoadedLibrary>,
    modules: Vec<LoadedModule<I>>,
}

impl<I> LoadedModuleSet<I> {
    /// The default directory library paths are resolved under.
    pub closed spec fn default_path_spec(&self) -> Seq<char> {
        self.default_path@
    }

    /// The paths of the libraries opened so far, oldest first.
    pub closed spec fn lib_paths(&self) -> Seq<Seq<char>> {
        self.libraries@.map(|i: int, l: LoadedLibrary| l.path@)
    }

    /// The names of the modules registered so far, oldest first.
    pub closed spec fn module_names(&self) -> Seq<Seq<char>> {
        self.modules@.map(|i: int, m: LoadedModule<I>| m.name_spec())
    }

    /// The set never opens one path twice, so the recorded paths are
    /// pairwise distinct.
    pub open spec fn wf(&self) -> bool {
        forall|i: int, j: int|
            0 <= i < j < self.lib_paths().len() ==> self.lib_paths()[i] != self.lib_paths()[j]
    }

    /// An empty set resolving library names under `default_path`.
    pub fn new(default_path: &str) -> (r: LoadedModuleSet<I>)
        ensures
            r.default_path_spec() == default_path@,
            r.lib_paths() == Seq::<Seq<char>>::empty(),
            r.module_names() == Seq::<Seq<char>>::empty(),
            r.wf(),
    {
        let r = LoadedModuleSet {
            default_path: String::from_str(default_path),
            libraries: Vec::new(),
            modules: Vec::new(),
        };
        proof {
            assert(r.lib_paths() =~= Seq::<Seq<char>>::empty());
            assert(r.module_names() =~= Seq::<Seq<char>>::empty());
        }
        r
    }

    /// The library path a module of the given name resolves to under the
    /// set's default directory.
    pub fn lib_path(&self, name: &str) -> (r: String)
        ensures
            r@ == joined_path(self.default_path_spec(), name@ + DYLIB_EXT@),
    {
        let mut file = String::from_str(name);
        file.append(DYLIB_EXT);
        join_path(self.default_path.as_str(), file.as_str())
    }

    /// How many distinct libraries the set has opened.
    pub fn library_count(&self) -> (r: usize)
        ensures
            r == self.lib_paths().len(),
    {
        self.libraries.len()
    }

    /// The opened library at position `index`.
    pub fn library_at(&self, index: usize) -> (r: &LoadedLibrary)
        requires
            index < self.lib_paths().len(),
        ensures
            r.path@ == self.lib_paths()[index as int],
    {
        &self.libraries[index]
    }

    /// Whether a library was already opened from `path`.
    pub fn has_library(&self, path: &str) -> (r: bool)
        ensures
            r == self.lib_paths().contains(path@),
    {
        let n = self.libraries.len();
        let mut i: usize = 0;
        while i < n
            invariant
                n == self.lib_paths().len(),
                0 <= i <= n,
                forall|j: int| 0 <= j < i ==> (#[trigger] self.lib_paths()[j]) != path@,
            decreases n - i,
        {
            if str_eq(self.libraries[i].path.as_str(), path) {
                proof {
                    assert(self.lib_paths()[i as int] == path@);
                }
                return true;
            }
            i = i + 1;
        }
        proof {
            if self.lib_paths().contains(path@) {
                let w = choose|w: int| 0 <= w < n && self.lib_paths()[w] == path@;
                assert(self.lib_paths()[w] != path@);
            }
        }
        false
    }

    /// Acquires the library at `path`, opening it at most once.
    ///
    /// Where the set already holds a library for that path, the position
    /// of the existing entry is returned and nothing is opened or changed;
    /// otherwise the native library is opened and recorded at the end of
    /// the set. The returned position names an entry whose path is `path`.
    #[verifier::loop_isolation(false)]
    pub fn load(&mut self, path: &str) -> (r: Result<usize, Error>)
        ensures
            old(self).wf() ==> final (self).wf(),
            final (self).default_path_spec() == old(self).default_path_spec(),
            final (self).module_names() == old(self).module_names(),
            old(self).lib_paths().contains(path@) ==> r is Ok && final (self).lib_paths() == old(self).lib_paths(),
            match r {
                Result::Ok(index) => {
                    &&& index < final (self).lib_paths().len()
                    &&& final (self).lib_paths()[index as int] == path@
                    &&& (final (self).lib_paths() == old(self).lib_paths() || final (self).lib_paths() == old(self).lib_paths().push(path@))
                },
                Result::Err(e) => {
                    &&& final (self).lib_paths() == old(self).lib_paths()
                    &&& e@ matches ErrorView::Io(_)
                    &&& !old(self).lib_paths().contains(path@)
                },
            },
    {
        let n = self.libraries.len();
        let mut i: usize = 0;
        while i < n
            invariant
                n == self.lib_paths().len(),
                0 <= i <= n,
                forall|j: int| 0 <= j < i ==> (#[trigger] self.lib_paths()[j]) != path@,
            decreases n - i,
        {
            if str_eq(self.libraries[i].path.as_str(), path) {
                proof {
                    assert(self.lib_paths()[i as int] == path@);
                }
                return Result::Ok(i);
            }
            i = i + 1;
        }
        proof {
            if self.lib_paths().contains(path@) {
                let w = choose|w: int| 0 <= w < n && self.lib_paths()[w] == path@;
                assert(self.lib_paths()[w] != path@);
            }
        }
        match open_native_library(path) {
            Result::Err(message) => Result::Err(Error::Io(message)),
            Result::Ok(library) => {
                let index = self.libraries.len();
                self.libraries.push(LoadedLibrary { path: String::from_str(path), library });
                proof {
                    assert(self.lib_paths() =~= old(self).lib_paths().push(path@));
                    assert(self.module_names() =~= old(self).module_names());
                }
                Result::Ok(index)
            },
        }
    }

    /// Registers a constructed interface under the module's name, keeping
    /// it alive for later lifecycle calls.
    pub fn insert(&mut self, name: &str, interface: I)
        ensures
            final (self).module_names() == old(self).module_names().push(name@),
            final (self).lib_paths() == old(self).lib_paths(),
            final (self).default_path_spec() == old(self).default_path_spec(),
            old(self).wf() ==> final (self).wf(),
    {
        self.modules.push(LoadedModule { name: String::from_str(name), interface });
        proof {
            assert(self.module_names() =~= old(self).module_names().push(name@));
            assert(self.lib_paths() =~= old(self).lib_paths());
        }
    }

    /// How many interfaces are registered.
    pub fn module_count(&self) -> (r: usize)
        ensures
            r == self.module_names().len(),
    {
        self.modules.len()
    }

    /// The registered module at position `index`.
    pub fn module_at(&self, index: usize) -> (r: &LoadedModule<I>)
        requires
            index < self.module_names().len(),
        ensures
            r.name_spec() == self.module_names()[index as int],
    {
        &self.modules[index]
    }
}

} // verus!
