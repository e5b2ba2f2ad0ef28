//! Stack templates: looking one up, and seeding the defaults from the
//! template files when the store holds none.
use vstd::prelude::*;
use crate::error::AppError;
use crate::text::concat3;

verus! {

/// The message when template `id` does not exist.
pub open spec fn missing_template(id: Seq<char>) -> Seq<char> {
    "Template "@ + id + " not found"@
}

/// Where seeding stands.
#[derive(Debug, Clone, Copy, PartialEq, Eq, Structural)]
pub enum SeedStage {
    Counting,
    Listing,
    Loading,
    Saving,
    Finished,
}

/// Seeding the default templates: the template files found, the one at `k`
/// being handled.
#[derive(Debug)]
pub struct SeedFlow {
    pub paths: Vec<String>,
    pub k: usize,
    pub stage: SeedStage,
}

/// The outcome of the last action, for templates of type `T`.
#[derive(Debug)]
pub enum SeedEvent<T> {
    /// The number of stored templates.
    Count(Result<i64, AppError>),
    /// The JSON files of the template directory; none when it cannot be read.
    Entries(Option<Vec<String>>),
    /// The template a file holds; none when it cannot be read or parsed.
    Loaded(Option<T>),
    /// A template was saved (a failure is only reported).
    Saved(Result<(), AppError>),
}

/// What the caller does next.
#[derive(Debug)]
pub enum SeedAction<T> {
    Count,
    ReadDir,
    Load { path: String },
    Save(T),
    Finish(Result<(), AppError>),
}

/// Which outcome each stage waits for.
pub open spec fn seed_accepts<T>(stage: SeedStage, e: SeedEvent<T>) -> bool {
    match stage {
        SeedStage::Counting => e is Count,
        SeedStage::Listing => e is Entries,
        SeedStage::Loading => e is Loaded,
        SeedStage::Saving => e is Saved,
        SeedStage::Finished => false,
    }
}

/// Loading the file at `k`, or with none left finishing successfully.
pub open spec fn seed_at<T>(s: SeedFlow, k: int, t: SeedFlow, a: SeedAction<T>) -> bool {
    if k < s.paths@.len() {
        t == (SeedFlow { k: t.k, stage: SeedStage::Loading, ..s }) && t.k == k && (a matches SeedAction::Load {
            path,
        } && path == s.paths@[k])
    } else {
        t.stage == SeedStage::Finished && a == SeedAction::<T>::Finish(Ok(()))
    }
}

/// One step: nothing is seeded when templates exist; an unreadable directory
/// seeds nothing; each file that holds a template is saved, the others
/// skipped, and a failed save does not stop the others.
pub open spec fn seed_next<T>(s: SeedFlow, e: SeedEvent<T>, t: SeedFlow, a: SeedAction<T>) -> bool {
    match (s.stage, e) {
        (SeedStage::Counting, SeedEvent::Count(Err(err))) => t.stage == SeedStage::Finished && a
            == SeedAction::<T>::Finish(Err(err)),
        (SeedStage::Counting, SeedEvent::Count(Ok(n))) => if n > 0 {
            t.stage == SeedStage::Finished && a == SeedAction::<T>::Finish(Ok(()))
        } else {
            t == (SeedFlow { stage: SeedStage::Listing, ..s }) && a == SeedAction::<T>::ReadDir
        },
        (SeedStage::Listing, SeedEvent::Entries(None)) => t.stage == SeedStage::Finished && a
            == SeedAction::<T>::Finish(Ok(())),
        (SeedStage::Listing, SeedEvent::Entries(Some(ps))) => seed_at(
            SeedFlow { paths: ps, k: 0, ..s },
            0,
            t,
            a,
        ),
        (SeedStage::Loading, SeedEvent::Loaded(None)) => seed_at(s, s.k + 1, t, a),
        (SeedStage::Loading, SeedEvent::Loaded(Some(tpl))) => t == (SeedFlow {
            stage: SeedStage::Saving,
            ..s
        }) && a == SeedAction::Save(tpl),
        (SeedStage::Saving, SeedEvent::Saved(_)) => seed_at(s, s.k + 1, t, a),
        _ => false,
    }
}

impl SeedFlow {
    /// While a file is handled, it is one of those found.
    pub open spec fn wf(self) -> bool {
        (self.stage == SeedStage::Loading || self.stage == SeedStage::Saving) ==> self.k
            < self.paths@.len()
    }

    fn load_at<T>(self, k: usize) -> (r: (SeedFlow, SeedAction<T>))
        requires
            k <= self.paths@.len(),
        ensures
            seed_at(self, k as int, r.0, r.1),
            r.0.wf(),
    {
        if k < self.paths.len() {
            let path = self.paths[k].clone();
            (SeedFlow { k, stage: SeedStage::Loading, ..self }, SeedAction::Load { path })
        } else {
            (SeedFlow { stage: SeedStage::Finished, ..self }, SeedAction::Finish(Ok(())))
        }
    }

    /// Whether the flow waits for an outcome like `e`.
    pub fn accepts_event<T>(&self, e: &SeedEvent<T>) -> (r: bool)
        ensures
            r == seed_accepts(self.stage, *e),
    {
        match self.stage {
            SeedStage::Counting => matches!(e, SeedEvent::Count(_)),
            SeedStage::Listing => matches!(e, SeedEvent::Entries(_)),
            SeedStage::Loading => matches!(e, SeedEvent::Loaded(_)),
            SeedStage::Saving => matches!(e, SeedEvent::Saved(_)),
            SeedStage::Finished => false,
        }
    }

    /// Takes the outcome `e` of the last action and gives the next flow and
    /// action.
    pub fn step<T>(self, e: SeedEvent<T>) -> (r: (SeedFlow, SeedAction<T>))
        requires
            self.wf(),
            seed_accepts(self.stage, e),
        ensures
            seed_next(self, e, r.0, r.1),
            r.0.wf(),
    {
        match e {
            SeedEvent::Count(Err(err)) => (
                SeedFlow { stage: SeedStage::Finished, ..self },
                SeedAction::Finish(Err(err)),
            ),
            SeedEvent::Count(Ok(n)) => if n > 0 {
                (SeedFlow { stage: SeedStage::Finished, ..self }, SeedAction::Finish(Ok(())))
            } else {
                (SeedFlow { stage: SeedStage::Listing, ..self }, SeedAction::ReadDir)
            },
            SeedEvent::Entries(None) => (
                SeedFlow { stage: SeedStage::Finished, ..self },
                SeedAction::Finish(Ok(())),
            ),
            SeedEvent::Entries(Some(ps)) => SeedFlow { paths: ps, k: 0, ..self }.load_at(0),
            SeedEvent::Loaded(None) => {
                let n = self.paths.len();
                assert(self.k < n);
                let k = self.k + 1;
                self.load_at(k)
            },
            SeedEvent::Loaded(Some(tpl)) => (
                SeedFlow { stage: SeedStage::Saving, ..self },
                SeedAction::Save(tpl),
            ),
            SeedEvent::Saved(_) => {
                let n = self.paths.len();
                assert(self.k < n);
                let k = self.k + 1;
                self.load_at(k)
            },
        }
    }
}

/// Template operations.
pub struct TemplateUsecase {}

impl TemplateUsecase {
    pub fn new() -> (u: TemplateUsecase) {
        TemplateUsecase {}
    }

    /// Template `id`, given what the store found for it.
    pub fn get_template<T>(&self, id: &str, found: Option<T>) -> (r: Result<T, AppError>)
        ensures
            match found {
                Some(t) => r == Ok::<T, AppError>(t),
                None => r matches Err(AppError::NotFound(m)) && m@ == missing_template(id@),
            },
    {
        match found {
            Some(t) => Ok(t),
            None => Err(AppError::NotFound(concat3("Template ", id, " not found"))),
        }
    }

    /// Starts seeding the default templates: first the stored ones are
    /// counted.
    pub fn seed_default_templates<T>(&self) -> (r: (SeedFlow, SeedAction<T>))
        ensures
            r.0.stage == SeedStage::Counting,
            r.0.wf(),
            r.1 == SeedAction::<T>::Count,
    {
        (SeedFlow { paths: Vec::new(), k: 0, stage: SeedStage::Counting }, SeedAction::Count)
    }
}

/// Seeding never fails once the stored templates are counted, and seeds
/// nothing when some exist.
pub proof fn law_seeding_only_fails_on_count<T>(s: SeedFlow, e: SeedEvent<T>, t: SeedFlow, a: SeedAction<T>)
    requires
        s.wf(),
        seed_accepts(s.stage, e),
        seed_next(s, e, t, a),
    ensures
        a matches SeedAction::Finish(Err(_)) ==> s.stage == SeedStage::Counting,
        e matches SeedEvent::Count(Ok(n)) && n > 0 ==> a == SeedAction::<T>::Finish(Ok(())),
{
}

} // verus!
