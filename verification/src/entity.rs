use vstd::prelude::*;
use vstd::string::StrSliceExecFns;
use vstd::string::StringExecFns;

use crate::common::assert_safe_path;
use crate::common::get_projectdir;
use crate::common::spec_is_absolute;
use crate::dir::Dir;
use crate::error::ConfigError;
use crate::error::DiskError;

verus! {

/// A character that no path component may hold anywhere.
pub open spec fn forbidden_char(c: char) -> bool {
    ||| c == '<'
    ||| c == '>'
    ||| c == ':'
    ||| c == '"'
    ||| c == '\''
    ||| c == '|'
    ||| c == '?'
    ||| c == '*'
    ||| c == '^'
    ||| c == '$'
    ||| c == '&'
    ||| c == '('
    ||| c == ')'
}

/// A path separator.  Components are handed in one by one, so neither
/// separator may appear inside any of them.
pub open spec fn separator_char(c: char) -> bool {
    c == '/' || c == '\\'
}

/// A character that no component may start or end with.
pub open spec fn bad_edge_char(c: char) -> bool {
    c == ' ' || separator_char(c)
}

/// Every character of the component is allowed: neither forbidden nor a
/// separator.
pub open spec fn symbols_ok(s: Seq<char>) -> bool {
    forall|i: int|
        0 <= i < s.len() ==> !forbidden_char(#[trigger] s[i]) && !separator_char(s[i])
}

/// The component does not start or end with a space or a separator.
pub open spec fn edges_ok(s: Seq<char>) -> bool {
    s.len() == 0 || (!bad_edge_char(s[0]) && !bad_edge_char(s[s.len() - 1]))
}

/// The characters of the sub-directory components, added up.
pub open spec fn subs_total_len(subs: Seq<Seq<char>>) -> int
    decreases subs.len(),
{
    if subs.len() == 0 {
        0
    } else {
        subs_total_len(subs.drop_last()) + subs.last().len()
    }
}

/// How a set of path components is validated before an entity may be
/// built from them, and which error fires first when several checks
/// fail.  This validation is what stands between caller-supplied strings
/// and the recursive delete operations, so it runs once, up front, when
/// the entity is constructed — never at the delete site.
pub open spec fn spec_validate(
    project: Seq<char>,
    subs: Seq<Seq<char>>,
    file: Seq<char>,
    ext: Seq<char>,
) -> Result<(), ConfigError> {
    if project.len() == 0 {
        Err(ConfigError::EmptyProject)
    } else if file.len() == 0 {
        Err(ConfigError::EmptyFile)
    } else if project.len() >= 255 {
        Err(ConfigError::ProjectTooLong)
    } else if file.len() >= 255 {
        Err(ConfigError::FileTooLong)
    } else if project.len() + subs_total_len(subs) + file.len() >= 4000 {
        Err(ConfigError::CombinedTooLong)
    } else if subs.len() >= 10 {
        Err(ConfigError::TooManySubDirs)
    } else if exists|i: int| 0 <= i < subs.len() && (#[trigger] subs[i]).len() == 0 {
        Err(ConfigError::EmptySubDir)
    } else if exists|i: int| 0 <= i < subs.len() && (#[trigger] subs[i]).len() > 255 {
        Err(ConfigError::SubDirTooLong)
    } else if !symbols_ok(project) || !symbols_ok(file) || !symbols_ok(ext) || exists|i: int|
        0 <= i < subs.len() && !symbols_ok(#[trigger] subs[i]) {
        Err(ConfigError::ForbiddenSymbol)
    } else if !edges_ok(project) || !edges_ok(file) || !edges_ok(ext) || exists|i: int|
        0 <= i < subs.len() && !edges_ok(#[trigger] subs[i]) {
        Err(ConfigError::BadEdgeSymbol)
    } else {
        Ok(())
    }
}

/// Check every character of one component.
fn check_symbols(s: &str) -> (r: bool)
    ensures
        r == symbols_ok(s@),
{
    let n = s.unicode_len();
    let mut i: usize = 0;
    while i < n
        invariant
            n == s@.len(),
            i <= n,
            forall|j: int|
                0 <= j < i ==> !forbidden_char(#[trigger] s@[j]) && !separator_char(s@[j]),
        decreases n - i,
    {
        let c = s.get_char(i);
        if c == '<' || c == '>' || c == ':' || c == '"' || c == '\'' || c == '|' || c == '?' || c
            == '*' || c == '^' || c == '$' || c == '&' || c == '(' || c == ')' || c == '/' || c
            == '\\' {
            return false;
        }
        i = i + 1;
    }
    true
}

/// Check the first and last character of one component.
fn check_edges(s: &str) -> (r: bool)
    ensures
        r == edges_ok(s@),
{
    let n = s.unicode_len();
    if n == 0 {
        return true;
    }
    let first = s.get_char(0);
    let last = s.get_char(n - 1);
    !(first == ' ' || first == '/' || first == '\\' || last == ' ' || last == '/' || last == '\\')
}

/// A shorter prefix of components never adds up to more characters than
/// the whole list does.
proof fn lemma_subs_total_len_take(subs: Seq<Seq<char>>, i: int)
    requires
        0 <= i <= subs.len(),
    ensures
        subs_total_len(subs.take(i)) <= subs_total_len(subs),
    decreases subs.len() - i,
{
    if i == subs.len() {
        assert(subs.take(i) =~= subs);
    } else {
        assert(subs.take(i + 1).drop_last() =~= subs.take(i));
        assert(subs.take(i + 1).last() == subs[i]);
        lemma_subs_total_len_take(subs, i + 1);
    }
}

/// Validate a set of path components, in the order `spec_validate` gives.
#[verifier::loop_isolation(false)]
pub fn validate_parts(project: &str, subs: &Vec<String>, file: &str, ext: &str) -> (r: Result<
    (),
    ConfigError,
>)
    ensures
        r == spec_validate(project@, subs@.map_values(|s: String| s@), file@, ext@),
{
    let ghost sviews = subs@.map_values(|s: String| s@);
    let plen = project.unicode_len();
    let flen = file.unicode_len();
    if plen == 0 {
        return Err(ConfigError::EmptyProject);
    }
    if flen == 0 {
        return Err(ConfigError::EmptyFile);
    }
    if plen >= 255 {
        return Err(ConfigError::ProjectTooLong);
    }
    if flen >= 255 {
        return Err(ConfigError::FileTooLong);
    }
    // Combined length, stopping as soon as the limit is reached so that
    // the running total stays small.
    let mut total: usize = plen + flen;
    let mut i: usize = 0;
    proof {
        assert(sviews.take(0) =~= Seq::<Seq<char>>::empty());
    }
    while i < subs.len()
        invariant
            i <= subs@.len(),
            total == plen + flen + subs_total_len(sviews.take(i as int)),
            total < 4000,
        decreases subs@.len() - i,
    {
        let l = subs[i].as_str().unicode_len();
        proof {
            assert(sviews.take(i + 1).drop_last() =~= sviews.take(i as int));
            assert(sviews.take(i + 1).last() == sviews[i as int]);
        }
        if l >= 4000 || total + l >= 4000 {
            proof {
                lemma_subs_total_len_take(sviews, i + 1);
            }
            return Err(ConfigError::CombinedTooLong);
        }
        total = total + l;
        i = i + 1;
    }
    proof {
        assert(sviews.take(subs@.len() as int) =~= sviews);
    }
    if subs.len() >= 10 {
        return Err(ConfigError::TooManySubDirs);
    }
    let mut i: usize = 0;
    while i < subs.len()
        invariant
            i <= subs@.len(),
            forall|j: int| 0 <= j < i ==> (#[trigger] sviews[j]).len() != 0,
        decreases subs@.len() - i,
    {
        if subs[i].as_str().unicode_len() == 0 {
            proof {
                assert(sviews[i as int] == subs@[i as int]@);
                assert(sviews[i as int].len() == 0);
            }
            return Err(ConfigError::EmptySubDir);
        }
        i = i + 1;
    }
    let mut i: usize = 0;
    while i < subs.len()
        invariant
            i <= subs@.len(),
            forall|j: int| 0 <= j < i ==> (#[trigger] sviews[j]).len() <= 255,
        decreases subs@.len() - i,
    {
        if subs[i].as_str().unicode_len() > 255 {
            proof {
                assert(sviews[i as int] == subs@[i as int]@);
                assert(sviews[i as int].len() > 255);
            }
            return Err(ConfigError::SubDirTooLong);
        }
        i = i + 1;
    }
    if !check_symbols(project) || !check_symbols(file) || !check_symbols(ext) {
        return Err(ConfigError::ForbiddenSymbol);
    }
    let mut i: usize = 0;
    while i < subs.len()
        invariant
            i <= subs@.len(),
            forall|j: int| 0 <= j < i ==> symbols_ok(#[trigger] sviews[j]),
        decreases subs@.len() - i,
    {
        if !check_symbols(subs[i].as_str()) {
            proof {
                assert(sviews[i as int] == subs@[i as int]@);
                assert(!symbols_ok(sviews[i as int]));
            }
            return Err(ConfigError::ForbiddenSymbol);
        }
        i = i + 1;
    }
    if !check_edges(project) || !check_edges(file) || !check_edges(ext) {
        return Err(ConfigError::BadEdgeSymbol);
    }
    let mut i: usize = 0;
    while i < subs.len()
        invariant
            i <= subs@.len(),
            forall|j: int| 0 <= j < i ==> edges_ok(#[trigger] sviews[j]),
        decreases subs@.len() - i,
    {
        if !check_edges(subs[i].as_str()) {
            proof {
                assert(sviews[i as int] == subs@[i as int]@);
                assert(!edges_ok(sviews[i as int]));
            }
            return Err(ConfigError::BadEdgeSymbol);
        }
        i = i + 1;
    }
    Ok(())
}

/// The canonical file name: the raw file name, with the extension behind
/// a dot when there is one.
pub open spec fn canonical_name(file: Seq<char>, ext: Seq<char>) -> Seq<char> {
    if ext.len() == 0 {
        file
    } else {
        file + seq!['.'] + ext
    }
}

/// The name of the gzip sibling of a file.
pub open spec fn gzip_name(name: Seq<char>) -> Seq<char> {
    name + seq!['.', 'g', 'z']
}

/// The name of the temporary sibling of a file.
pub open spec fn tmp_name(name: Seq<char>) -> Seq<char> {
    name + seq!['.', 't', 'm', 'p']
}

/// The name of the temporary sibling of the gzip variant of a file.
pub open spec fn gzip_tmp_name(name: Seq<char>) -> Seq<char> {
    name + seq!['.', 'g', 'z', '.', 't', 'm', 'p']
}

/// The relative directory path under the project directory: one `/` in
/// front of each sub-directory component, in order.
pub open spec fn rel_dir(subs: Seq<Seq<char>>) -> Seq<char>
    decreases subs.len(),
{
    if subs.len() == 0 {
        Seq::empty()
    } else {
        rel_dir(subs.drop_last()) + seq!['/'] + subs.last()
    }
}

/// A persistable entity: a validated set of path components that fixes,
/// once and for all, where a value lives on disk and under which four
/// sibling file names.
///
/// The four names are derived together at construction time and never
/// recomputed, so a save and a later load can never disagree about them.
/// Validation happens here, in the constructor, and nowhere later: it is
/// the precondition that keeps the recursive delete operations from ever
/// seeing an empty or malformed component.
#[derive(Clone, Debug)]
pub struct Entity {
    dir: Dir,
    project_dir: String,
    sub_dirs: Vec<String>,
    file: String,
    file_ext: String,
    file_name: String,
    file_name_gzip: String,
    file_name_tmp: String,
    file_name_gzip_tmp: String,
}

impl Entity {
    /// Which OS directory kind the entity lives under.
    pub closed spec fn spec_os_dir(self) -> Dir {
        self.dir
    }

    /// The project directory component.
    pub closed spec fn spec_project_directory(self) -> Seq<char> {
        self.project_dir@
    }

    /// The sub-directory components, outermost first.
    pub closed spec fn spec_sub_directories(self) -> Seq<Seq<char>> {
        self.sub_dirs@.map_values(|s: String| s@)
    }

    /// The raw file name, without extension.
    pub closed spec fn spec_file(self) -> Seq<char> {
        self.file@
    }

    /// The file extension, possibly empty.
    pub closed spec fn spec_file_ext(self) -> Seq<char> {
        self.file_ext@
    }

    /// The canonical file name.
    pub closed spec fn spec_file_name(self) -> Seq<char> {
        self.file_name@
    }

    /// The gzip sibling's name.
    pub closed spec fn spec_file_name_gzip(self) -> Seq<char> {
        self.file_name_gzip@
    }

    /// The temporary sibling's name.
    pub closed spec fn spec_file_name_tmp(self) -> Seq<char> {
        self.file_name_tmp@
    }

    /// The compressed temporary sibling's name.
    pub closed spec fn spec_file_name_gzip_tmp(self) -> Seq<char> {
        self.file_name_gzip_tmp@
    }

    /// Well-formedness: the components passed validation, and the four
    /// stored names are exactly the ones derived from the file name and
    /// extension — same stem, differing only in suffix.
    pub open spec fn wf(self) -> bool {
        &&& spec_validate(
            self.spec_project_directory(),
            self.spec_sub_directories(),
            self.spec_file(),
            self.spec_file_ext(),
        ) is Ok
        &&& self.spec_file_name() == canonical_name(self.spec_file(), self.spec_file_ext())
        &&& self.spec_file_name_gzip() == gzip_name(self.spec_file_name())
        &&& self.spec_file_name_tmp() == tmp_name(self.spec_file_name())
        &&& self.spec_file_name_gzip_tmp() == gzip_tmp_name(self.spec_file_name())
    }

    /// Build an entity from its components, validating them first: the
    /// only way to obtain one.  The four file names are derived here,
    /// consistently, and are fixed for the entity's lifetime.
    pub fn new(
        dir: Dir,
        project_dir: String,
        sub_dirs: Vec<String>,
        file: String,
        file_ext: String,
    ) -> (r: Result<Entity, ConfigError>)
        ensures
            match r {
                Ok(e) => {
                    &&& spec_validate(
                        project_dir@,
                        sub_dirs@.map_values(|s: String| s@),
                        file@,
                        file_ext@,
                    ) is Ok
                    &&& e.wf()
                    &&& e.spec_os_dir() == dir
                    &&& e.spec_project_directory() == project_dir@
                    &&& e.spec_sub_directories() == sub_dirs@.map_values(|s: String| s@)
                    &&& e.spec_file() == file@
                    &&& e.spec_file_ext() == file_ext@
                },
                Err(c) => spec_validate(
                    project_dir@,
                    sub_dirs@.map_values(|s: String| s@),
                    file@,
                    file_ext@,
                ) == Err::<(), ConfigError>(c),
            },
    {
        match validate_parts(project_dir.as_str(), &sub_dirs, file.as_str(), file_ext.as_str()) {
            Ok(()) => {},
            Err(c) => {
                return Err(c);
            },
        }
        let file_name = if file_ext.as_str().unicode_len() == 0 {
            file.clone()
        } else {
            let mut n = file.clone();
            n.append(".");
            n.append(file_ext.as_str());
            n
        };
        let mut gz = file_name.clone();
        gz.append(".gz");
        let mut tmp = file_name.clone();
        tmp.append(".tmp");
        let mut gz_tmp = file_name.clone();
        gz_tmp.append(".gz.tmp");
        proof {
            reveal_strlit(".");
            reveal_strlit(".gz");
            reveal_strlit(".tmp");
            reveal_strlit(".gz.tmp");
            assert("."@ =~= seq!['.']);
            assert(".gz"@ =~= seq!['.', 'g', 'z']);
            assert(".tmp"@ =~= seq!['.', 't', 'm', 'p']);
            assert(".gz.tmp"@ =~= seq!['.', 'g', 'z', '.', 't', 'm', 'p']);
            assert(file_name@ == canonical_name(file@, file_ext@));
        }
        Ok(
            Entity {
                dir,
                project_dir,
                sub_dirs,
                file,
                file_ext,
                file_name,
                file_name_gzip: gz,
                file_name_tmp: tmp,
                file_name_gzip_tmp: gz_tmp,
            },
        )
    }

    /// Which OS directory kind the entity lives under.
    pub fn os_directory(&self) -> (r: Dir)
        ensures
            r == self.spec_os_dir(),
    {
        self.dir
    }

    /// The project directory component.
    pub fn project_directory(&self) -> (r: &String)
        ensures
            r@ == self.spec_project_directory(),
    {
        &self.project_dir
    }

    /// The sub-directory components, outermost first.
    pub fn sub_directories(&self) -> (r: &Vec<String>)
        ensures
            r@.map_values(|s: String| s@) == self.spec_sub_directories(),
    {
        &self.sub_dirs
    }

    /// The raw file name, without extension.
    pub fn file(&self) -> (r: &String)
        ensures
            r@ == self.spec_file(),
    {
        &self.file
    }

    /// The file extension, possibly empty.
    pub fn file_ext(&self) -> (r: &String)
        ensures
            r@ == self.spec_file_ext(),
    {
        &self.file_ext
    }

    /// The canonical file name.
    pub fn file_name(&self) -> (r: &String)
        ensures
            r@ == self.spec_file_name(),
    {
        &self.file_name
    }

    /// The gzip sibling's name.
    pub fn file_name_gzip(&self) -> (r: &String)
        ensures
            r@ == self.spec_file_name_gzip(),
    {
        &self.file_name_gzip
    }

    /// The temporary sibling's name.
    pub fn file_name_tmp(&self) -> (r: &String)
        ensures
            r@ == self.spec_file_name_tmp(),
    {
        &self.file_name_tmp
    }

    /// The compressed temporary sibling's name.
    pub fn file_name_gzip_tmp(&self) -> (r: &String)
        ensures
            r@ == self.spec_file_name_gzip_tmp(),
    {
        &self.file_name_gzip_tmp
    }

    /// Append the sub-directory components to a base path, one `/` in
    /// front of each.
    #[verifier::loop_isolation(false)]
    fn join_sub_dirs(&self, base: &str) -> (r: String)
        ensures
            r@ == base@ + rel_dir(self.spec_sub_directories()),
    {
        let ghost svs = self.spec_sub_directories();
        let mut out = String::from_str(base);
        let mut i: usize = 0;
        proof {
            assert(rel_dir(svs.take(0)) =~= Seq::<char>::empty());
            assert(out@ =~= base@ + rel_dir(svs.take(0)));
        }
        while i < self.sub_dirs.len()
            invariant
                i <= self.sub_dirs@.len(),
                out@ == base@ + rel_dir(svs.take(i as int)),
            decreases self.sub_dirs@.len() - i,
        {
            out.append("/");
            out.append(self.sub_dirs[i].as_str());
            proof {
                reveal_strlit("/");
                assert("/"@ =~= seq!['/']);
                assert(svs.take(i + 1).drop_last() =~= svs.take(i as int));
                assert(svs.take(i + 1).last() == svs[i as int]);
                assert(svs[i as int] == self.sub_dirs@[i as int]@);
                assert(out@ =~= base@ + rel_dir(svs.take(i + 1)));
            }
            i = i + 1;
        }
        proof {
            assert(svs.take(self.sub_dirs@.len() as int) =~= svs);
        }
        out
    }

    /// The path of the project directory, from the external directory
    /// resolver.  For every directory kind but [`Dir::Project`] it hangs
    /// off the user's home directory and so is never empty; the
    /// [`Dir::Project`] kind resolves to the bare project path fragment,
    /// of which nothing is claimed.
    pub fn project_dir_path(&self) -> (r: Result<String, DiskError>)
        ensures
            r matches Ok(p) ==> (self.spec_os_dir() != Dir::Project ==> p@.len() > 0),
    {
        get_projectdir(&self.dir, self.project_dir.as_str())
    }

    /// The absolute base path of the entity's files: the resolved project
    /// directory with every sub-directory component behind it.
    pub fn base_path(&self) -> (r: Result<String, DiskError>)
        ensures
            r matches Ok(p) ==> exists|b: Seq<char>|
                p@ == #[trigger] (b + rel_dir(self.spec_sub_directories())),
    {
        let base = match self.project_dir_path() {
            Ok(b) => b,
            Err(e) => {
                return Err(e);
            },
        };
        let joined = self.join_sub_dirs(base.as_str());
        proof {
            assert(joined@ == base@ + rel_dir(self.spec_sub_directories()));
        }
        Ok(joined)
    }

    /// The absolute path of the canonical file, checked to be absolute
    /// before it is handed out.
    pub fn absolute_path(&self) -> (r: Result<String, DiskError>)
        ensures
            r matches Ok(p) ==> spec_is_absolute(p@) && exists|b: Seq<char>|
                p@ == #[trigger] (b + seq!['/']) + self.spec_file_name(),
    {
        let base = match self.base_path() {
            Ok(b) => b,
            Err(e) => {
                return Err(e);
            },
        };
        let ghost b0 = base@;
        let mut p = base;
        p.append("/");
        p.append(self.file_name.as_str());
        match assert_safe_path(p.as_str()) {
            Ok(()) => {},
            Err(e) => {
                return Err(e);
            },
        }
        proof {
            reveal_strlit("/");
            assert("/"@ =~= seq!['/']);
            assert(p@ == (b0 + seq!['/']) + self.spec_file_name());
        }
        Ok(p)
    }

    /// The absolute path of the gzip sibling, checked the same way.
    pub fn absolute_path_gzip(&self) -> (r: Result<String, DiskError>)
        ensures
            r matches Ok(p) ==> spec_is_absolute(p@) && exists|b: Seq<char>|
                p@ == #[trigger] (b + seq!['/']) + self.spec_file_name_gzip(),
    {
        let base = match self.base_path() {
            Ok(b) => b,
            Err(e) => {
                return Err(e);
            },
        };
        let ghost b0 = base@;
        let mut p = base;
        p.append("/");
        p.append(self.file_name_gzip.as_str());
        match assert_safe_path(p.as_str()) {
            Ok(()) => {},
            Err(e) => {
                return Err(e);
            },
        }
        proof {
            reveal_strlit("/");
            assert("/"@ =~= seq!['/']);
            assert(p@ == (b0 + seq!['/']) + self.spec_file_name_gzip());
        }
        Ok(p)
    }

    /// The absolute path of the topmost sub-directory, or the project
    /// directory itself when the entity has no sub-directories.  This is
    /// the root that the recursive sub-tree removal starts from.
    pub fn sub_dir_parent_path(&self) -> (r: Result<String, DiskError>)
        ensures
            r matches Ok(p) ==> ((self.spec_sub_directories().len() == 0 && self.spec_os_dir()
                != Dir::Project) ==> p@.len() > 0) && (self.spec_sub_directories().len() > 0
                ==> exists|b: Seq<char>|
                p@ == #[trigger] (b + seq!['/']) + self.spec_sub_directories()[0]),
    {
        let base = match self.project_dir_path() {
            Ok(b) => b,
            Err(e) => {
                return Err(e);
            },
        };
        if self.sub_dirs.len() == 0 {
            return Ok(base);
        }
        let ghost b0 = base@;
        let mut p = base;
        p.append("/");
        p.append(self.sub_dirs[0].as_str());
        proof {
            reveal_strlit("/");
            assert("/"@ =~= seq!['/']);
            assert(self.spec_sub_directories()[0] == self.sub_dirs@[0]@);
            assert(p@ == (b0 + seq!['/']) + self.spec_sub_directories()[0]);
        }
        Ok(p)
    }
}


} // verus!
