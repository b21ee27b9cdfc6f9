//! Language definitions, which tell a heartbeat's language from its file,
//! and language categories.

use vstd::prelude::*;

verus! {

/// Why a set of language definitions was rejected.
#[derive(Debug, Clone, PartialEq, Eq)]
pub enum LanguageError {
    /// A definition file is not valid JSON; the parser's message.
    InvalidJson(String),
    InvalidName,
    /// A definition gives neither a file name nor an extension.
    InvalidFileNames,
    MissingFile(String),
}

/// A category of languages.
#[derive(Debug, Clone, PartialEq, Eq, Hash)]
pub struct LanguageCategory {
    pub name: String,
    pub description: Option<String>,
}

/// A language: its name, color, categories, other names, and the file
/// extensions and file names that mark it.
#[derive(Debug, Clone, PartialEq, Eq, Hash)]
pub struct LanguageDef {
    pub name: String,
    pub default_color: Option<String>,
    pub categories: Vec<String>,
    pub aliases: Vec<String>,
    pub extensions: Vec<String>,
    pub file_names: Vec<String>,
}

/// Where a custom language or category comes from.
#[derive(Debug, Clone, Copy, PartialEq, Eq, Hash, Structural)]
pub enum Source {
    /// The definition files.
    FromDefault,
    /// The definition files, then changed by an admin.
    ModifiedDefault,
    /// Added by a user for their own use.
    FromUser,
    /// Added by a team for its members.
    FromTeam,
    /// Added by an admin for everybody.
    FromAdmin,
}

/// Whether a definition can be used: its name is not empty, and it gives
/// at least one file name or extension.
pub open spec fn definition_check(d: LanguageDef) -> Result<(), LanguageError> {
    if d.name@.len() == 0 {
        Err(LanguageError::InvalidName)
    } else if d.file_names@.len() == 0 && d.extensions@.len() == 0 {
        Err(LanguageError::InvalidFileNames)
    } else {
        Ok(())
    }
}

/// The first error among the checks of `defs`, or `Ok` if all pass.
pub open spec fn first_check_failure(defs: Seq<LanguageDef>) -> Result<(), LanguageError>
    decreases defs.len(),
{
    if defs.len() == 0 {
        Ok(())
    } else {
        match first_check_failure(defs.drop_last()) {
            Ok(()) => definition_check(defs.last()),
            Err(e) => Err(e),
        }
    }
}

/// The name of the file that holds the default definitions.
pub open spec fn default_file_name() -> Seq<char> {
    "languages.json"@
}

impl LanguageDef {
    pub fn is_valid(&self) -> (r: Result<(), LanguageError>)
        ensures
            r == definition_check(*self),
    {
        if self.name.unicode_len() == 0 {
            return Err(LanguageError::InvalidName);
        }
        if self.file_names.len() == 0 && self.extensions.len() == 0 {
            return Err(LanguageError::InvalidFileNames);
        }
        Ok(())
    }

    /// Checks the definitions of one file, in order; the first failing
    /// check is the error.
    pub fn validate_all(defs: &Vec<LanguageDef>) -> (r: Result<(), LanguageError>)
        ensures
            r == first_check_failure(defs@),
    {
        let mut i: usize = 0;
        while i < defs.len()
            invariant
                0 <= i <= defs@.len(),
                first_check_failure(defs@.take(i as int)) == Ok::<(), LanguageError>(()),
            decreases defs@.len() - i,
        {
            let checked = defs[i].is_valid();
            assert(defs@.take(i as int + 1).drop_last() == defs@.take(i as int));
            if checked.is_err() {
                proof {
                    lemma_first_failure_extends(defs@, i as int + 1);
                }
                return checked;
            }
            i += 1;
        }
        assert(defs@.take(defs@.len() as int) == defs@);
        Ok(())
    }

    /// The definitions of the definition files, read in order: the first
    /// file is the default one and must be there; the definitions of each
    /// later file are checked before they are added.
    pub fn load_languages(files: Vec<Vec<LanguageDef>>) -> (r: Result<Vec<LanguageDef>, LanguageError>)
        ensures
            files@.len() == 0 ==> (r matches Err(LanguageError::MissingFile(f)) && f@ == default_file_name()),
            files@.len() > 0 ==> match r {
                Ok(all) => all@ == files@.map_values(|f: Vec<LanguageDef>| f@).flatten()
                    && forall|i: int| 1 <= i < files@.len() ==> first_check_failure(#[trigger] files@[i]@) == Ok::<(), LanguageError>(()),
                Err(e) => exists|i: int| 1 <= i < files@.len() && first_check_failure(#[trigger] files@[i]@) == Err::<(), LanguageError>(e)
                    && forall|j: int| 1 <= j < i ==> first_check_failure(#[trigger] files@[j]@) == Ok::<(), LanguageError>(()),
            },
    {
        if files.len() == 0 {
            return Err(LanguageError::MissingFile("languages.json".to_owned()));
        }
        let ghost views = files@.map_values(|f: Vec<LanguageDef>| f@);
        let ghost whole = files@;
        let count = files.len();
        let mut rest = files;
        let mut all: Vec<LanguageDef> = Vec::new();
        let mut i: usize = 0;
        while rest.len() > 0
            invariant
                0 <= i <= whole.len(),
                whole == files@,
                whole.len() > 0,
                whole.len() == count,
                rest@ == whole.skip(i as int),
                rest@.len() == whole.len() - i,
                views == whole.map_values(|f: Vec<LanguageDef>| f@),
                all@ == views.take(i as int).flatten(),
                forall|j: int| 1 <= j < i ==> first_check_failure(#[trigger] whole[j]@) == Ok::<(), LanguageError>(()),
            decreases rest@.len(),
        {
            let mut file = rest.remove(0);
            assert(file == whole[i as int]);
            if i > 0 {
                let checked = LanguageDef::validate_all(&file);
                if let Err(e) = checked {
                    assert(first_check_failure(whole[i as int]@) == Err::<(), LanguageError>(e));
                    return Err(e);
                }
            }
            all.append(&mut file);
            proof {
                assert(rest@ == whole.skip(i as int + 1));
                assert(views.take(i as int + 1) == views.take(i as int).push(views[i as int]));
                views.take(i as int).lemma_flatten_push(views[i as int]);
            }
            i += 1;
        }
        assert(views.take(whole.len() as int) == views);
        Ok(all)
    }
}

/// Once a prefix of `defs` has a failing check, every longer prefix fails
/// with the same error.
proof fn lemma_first_failure_extends(defs: Seq<LanguageDef>, n: int)
    requires
        0 < n <= defs.len(),
        first_check_failure(defs.take(n)) is Err,
    ensures
        first_check_failure(defs) == first_check_failure(defs.take(n)),
    decreases defs.len() - n,
{
    if n < defs.len() {
        assert(defs.take(n + 1).drop_last() == defs.take(n));
        lemma_first_failure_extends(defs, n + 1);
    } else {
        assert(defs.take(n) == defs);
    }
}

} // verus!
