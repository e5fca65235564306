//! Routing of persisted task formats to the handlers of one worker: every format
//! goes to exactly one handler.
use vstd::prelude::*;
use crate::application::outbox::task::{TaskFormat, TaskFormatView};
use crate::application::outbox::task_handler::{TaskExecutionError, TaskExecutionErrorView};

verus! {

#[derive(Clone, Debug, PartialEq, Eq)]
pub enum TaskHandlerRegistryError {
    /// No handler, or no format at all.
    Empty,
    /// Two handlers, or one handler twice, declare this format (type and version).
    DuplicateFormat(String, i32),
}

pub open spec fn format_views(formats: Seq<TaskFormat>) -> Seq<TaskFormatView> {
    formats.map_values(|f: TaskFormat| f@)
}

/// The formats of all handlers, in handler order.
pub open spec fn all_formats(handlers: Seq<Seq<TaskFormatView>>) -> Seq<TaskFormatView>
    decreases handlers.len(),
{
    if handlers.len() == 0 {
        Seq::empty()
    } else {
        all_formats(handlers.drop_last()) + handlers.last()
    }
}

/// For each entry of `all_formats`, the index of the handler that declared it.
pub open spec fn all_owners(handlers: Seq<Seq<TaskFormatView>>) -> Seq<usize>
    decreases handlers.len(),
{
    if handlers.len() == 0 {
        Seq::empty()
    } else {
        all_owners(handlers.drop_last()) + Seq::new(handlers.last().len(), |k: int| (handlers.len() - 1) as usize)
    }
}

/// The first position whose format already occurred before it.
pub open spec fn first_repeat(formats: Seq<TaskFormatView>) -> Option<int>
    decreases formats.len(),
{
    if formats.len() == 0 {
        None
    } else {
        match first_repeat(formats.drop_last()) {
            Some(position) => Some(position),
            None => if formats.drop_last().contains(formats.last()) {
                Some(formats.len() - 1)
            } else {
                None
            },
        }
    }
}

/// What building a registry from the handlers' formats gives.
pub open spec fn registry_outcome(handlers: Seq<Seq<TaskFormatView>>) -> Result<Seq<TaskFormatView>, Option<TaskFormatView>> {
    if handlers.len() == 0 {
        Err(None)
    } else {
        match first_repeat(all_formats(handlers)) {
            Some(position) => Err(Some(all_formats(handlers)[position])),
            None => if all_formats(handlers).len() == 0 {
                Err(None)
            } else {
                Ok(all_formats(handlers))
            },
        }
    }
}

pub proof fn lemma_no_repeat_means_distinct(formats: Seq<TaskFormatView>)
    requires
        first_repeat(formats) is None,
    ensures
        formats.no_duplicates(),
    decreases formats.len(),
{
    if formats.len() > 0 {
        lemma_no_repeat_means_distinct(formats.drop_last());
        assert forall|i: int, j: int| 0 <= i < formats.len() && 0 <= j < formats.len() && i != j implies formats[i]
            != formats[j] by {
            if j == formats.len() - 1 {
                assert(formats.drop_last()[i] == formats[i]);
            } else if i == formats.len() - 1 {
                assert(formats.drop_last()[j] == formats[j]);
            } else {
                assert(formats.drop_last()[i] == formats[i]);
                assert(formats.drop_last()[j] == formats[j]);
            }
        }
    }
}

proof fn lemma_repeat_survives_extension(prefix: Seq<TaskFormatView>, formats: Seq<TaskFormatView>)
    requires
        prefix.len() <= formats.len(),
        formats.take(prefix.len() as int) == prefix,
        first_repeat(prefix) is Some,
    ensures
        first_repeat(formats) == first_repeat(prefix),
    decreases formats.len(),
{
    if formats.len() > prefix.len() {
        assert(formats.drop_last().take(prefix.len() as int) == prefix);
        lemma_repeat_survives_extension(prefix, formats.drop_last());
    } else {
        assert(formats == prefix);
    }
}

proof fn lemma_owners_match_formats(handlers: Seq<Seq<TaskFormatView>>)
    ensures
        all_owners(handlers).len() == all_formats(handlers).len(),
    decreases handlers.len(),
{
    if handlers.len() > 0 {
        lemma_owners_match_formats(handlers.drop_last());
    }
}

proof fn lemma_all_formats_step(handlers: Seq<Seq<TaskFormatView>>, i: int)
    requires
        0 <= i < handlers.len(),
    ensures
        all_formats(handlers.take(i + 1)) == all_formats(handlers.take(i)) + handlers[i],
        all_owners(handlers.take(i + 1)) == all_owners(handlers.take(i)) + Seq::new(
            handlers[i].len(),
            |k: int| i as usize,
        ),
{
    assert(handlers.take(i + 1).drop_last() == handlers.take(i));
}

proof fn lemma_all_formats_prefix(handlers: Seq<Seq<TaskFormatView>>, i: int)
    requires
        0 <= i <= handlers.len(),
    ensures
        all_formats(handlers.take(i)).len() <= all_formats(handlers).len(),
        all_formats(handlers).take(all_formats(handlers.take(i)).len() as int) == all_formats(handlers.take(i)),
    decreases handlers.len() - i,
{
    if i == handlers.len() {
        assert(handlers.take(i) == handlers);
    } else {
        lemma_all_formats_prefix(handlers, i + 1);
        lemma_all_formats_step(handlers, i);
        let shorter = all_formats(handlers.take(i));
        let longer = all_formats(handlers.take(i + 1));
        assert(longer.take(shorter.len() as int) == shorter);
        assert(all_formats(handlers).take(shorter.len() as int) == longer.take(shorter.len() as int));
    }
}

proof fn lemma_declared_is_listed(handlers: Seq<Seq<TaskFormatView>>, g: int, k: int)
    requires
        handlers.len() <= usize::MAX,
        0 <= g < handlers.len(),
        0 <= k < handlers[g].len(),
    ensures
        exists|i: int|
            0 <= i < all_formats(handlers).len() && #[trigger] all_formats(handlers)[i] == handlers[g][k]
                && all_owners(handlers)[i] == g,
    decreases handlers.len(),
{
    let init = handlers.drop_last();
    lemma_owners_match_formats(init);
    lemma_owners_match_formats(handlers);
    if g == handlers.len() - 1 {
        let i = all_formats(init).len() + k;
        assert(all_formats(handlers)[i] == handlers[g][k]);
        assert(all_owners(handlers)[i] == g);
    } else {
        assert(init[g] == handlers[g]);
        lemma_declared_is_listed(init, g, k);
        let i = choose|i: int|
            0 <= i < all_formats(init).len() && #[trigger] all_formats(init)[i] == init[g][k] && all_owners(init)[i]
                == g;
        assert(all_formats(handlers)[i] == all_formats(init)[i]);
        assert(all_owners(handlers)[i] == all_owners(init)[i]);
    }
}

proof fn lemma_listed_owner_declares(handlers: Seq<Seq<TaskFormatView>>, i: int)
    requires
        handlers.len() <= usize::MAX,
        0 <= i < all_formats(handlers).len(),
    ensures
        0 <= all_owners(handlers)[i] < handlers.len(),
        handlers[all_owners(handlers)[i] as int].contains(all_formats(handlers)[i]),
    decreases handlers.len(),
{
    let init = handlers.drop_last();
    lemma_owners_match_formats(init);
    lemma_owners_match_formats(handlers);
    if i < all_formats(init).len() {
        lemma_listed_owner_declares(init, i);
        assert(all_formats(handlers)[i] == all_formats(init)[i]);
        assert(all_owners(handlers)[i] == all_owners(init)[i]);
        assert(init[all_owners(init)[i] as int] == handlers[all_owners(init)[i] as int]);
    } else {
        let k = i - all_formats(init).len();
        assert(all_formats(handlers)[i] == handlers.last()[k]);
        assert(all_owners(handlers)[i] == (handlers.len() - 1) as usize);
        assert(handlers[handlers.len() - 1] == handlers.last());
        assert(handlers.last()[k] == all_formats(handlers)[i]);
    }
}

/// Dispatch of a registry: a format is routed exactly when some handler declares it, and
/// the handler it is routed to is the one handler that declares it.
pub proof fn lemma_registry_dispatch(routes: TaskRoutes, handlers: Seq<Seq<TaskFormatView>>, format: TaskFormatView)
    requires
        routes.built_from(handlers),
        handlers.len() <= usize::MAX,
    ensures
        routes.spec_formats().contains(format) <==> exists|g: int|
            0 <= g < handlers.len() && #[trigger] handlers[g].contains(format),
        forall|i: int|
            0 <= i < routes.spec_formats().len() && #[trigger] routes.spec_formats()[i] == format ==> {
                let h = routes.spec_owners()[i] as int;
                &&& 0 <= h < handlers.len()
                &&& handlers[h].contains(format)
                &&& forall|g: int| 0 <= g < handlers.len() && g != h ==> !(#[trigger] handlers[g].contains(format))
            },
{
    let formats = all_formats(handlers);
    let owners = all_owners(handlers);
    lemma_owners_match_formats(handlers);
    assert forall|i: int|
        0 <= i < routes.spec_formats().len() && #[trigger] routes.spec_formats()[i] == format implies {
            let h = routes.spec_owners()[i] as int;
            &&& 0 <= h < handlers.len()
            &&& handlers[h].contains(format)
            &&& forall|g: int| 0 <= g < handlers.len() && g != h ==> !(#[trigger] handlers[g].contains(format))
        } by {
        lemma_listed_owner_declares(handlers, i);
        let h = owners[i] as int;
        assert forall|g: int| 0 <= g < handlers.len() && g != h implies !(#[trigger] handlers[g].contains(format)) by {
            if handlers[g].contains(format) {
                let k = choose|k: int| 0 <= k < handlers[g].len() && handlers[g][k] == format;
                lemma_declared_is_listed(handlers, g, k);
                let j = choose|j: int|
                    0 <= j < formats.len() && #[trigger] formats[j] == handlers[g][k] && owners[j] == g;
                assert(formats[j] == formats[i]);
                assert(j != i);
            }
        }
    }
    if routes.spec_formats().contains(format) {
        let i = choose|i: int| 0 <= i < formats.len() && formats[i] == format;
        lemma_listed_owner_declares(handlers, i);
        let h = owners[i] as int;
        assert(handlers[h].contains(format));
    }
    if exists|g: int| 0 <= g < handlers.len() && #[trigger] handlers[g].contains(format) {
        let g = choose|g: int| 0 <= g < handlers.len() && #[trigger] handlers[g].contains(format);
        let k = choose|k: int| 0 <= k < handlers[g].len() && handlers[g][k] == format;
        lemma_declared_is_listed(handlers, g, k);
        let j = choose|j: int| 0 <= j < formats.len() && #[trigger] formats[j] == handlers[g][k] && owners[j] == g;
        assert(formats[j] == format);
    }
}

/// Which handler serves each format.
pub struct TaskRoutes {
    formats: Vec<TaskFormat>,
    owners: Vec<usize>,
}

impl TaskRoutes {
    pub closed spec fn spec_formats(&self) -> Seq<TaskFormatView> {
        format_views(self.formats@)
    }

    pub closed spec fn spec_owners(&self) -> Seq<usize> {
        self.owners@
    }

    /// The routes were built from these handlers' formats.
    pub open spec fn built_from(&self, handlers: Seq<Seq<TaskFormatView>>) -> bool {
        &&& self.spec_formats() == all_formats(handlers)
        &&& self.spec_owners() == all_owners(handlers)
        &&& self.spec_formats().no_duplicates()
    }

    pub open spec fn wf(&self) -> bool {
        &&& self.spec_formats().len() == self.spec_owners().len()
        &&& self.spec_formats().no_duplicates()
    }

    /// Builds the routes for the handlers whose formats are listed, handler by handler.
    pub fn try_new(handlers: &Vec<Vec<TaskFormat>>) -> (routes: Result<TaskRoutes, TaskHandlerRegistryError>)
        ensures
            ({
                let declared = handlers@.map_values(|list: Vec<TaskFormat>| format_views(list@));
                match routes {
                    Ok(r) => registry_outcome(declared) == Ok::<Seq<TaskFormatView>, Option<TaskFormatView>>(
                        r.spec_formats(),
                    ) && r.built_from(declared) && r.wf(),
                    Err(TaskHandlerRegistryError::Empty) => registry_outcome(declared) == Err::<
                        Seq<TaskFormatView>,
                        Option<TaskFormatView>,
                    >(None),
                    Err(TaskHandlerRegistryError::DuplicateFormat(task_type, task_version)) => registry_outcome(
                        declared,
                    ) == Err::<Seq<TaskFormatView>, Option<TaskFormatView>>(
                        Some(TaskFormatView { task_type: task_type@, task_version }),
                    ),
                }
            }),
    {
        let ghost declared = handlers@.map_values(|list: Vec<TaskFormat>| format_views(list@));
        if handlers.len() == 0 {
            return Err(TaskHandlerRegistryError::Empty);
        }
        let mut formats: Vec<TaskFormat> = Vec::new();
        let mut owners: Vec<usize> = Vec::new();
        let mut i: usize = 0;
        while i < handlers.len()
            invariant
                declared == handlers@.map_values(|list: Vec<TaskFormat>| format_views(list@)),
                i <= handlers.len(),
                format_views(formats@) == all_formats(declared.take(i as int)),
                owners@ == all_owners(declared.take(i as int)),
                first_repeat(format_views(formats@)) is None,
            decreases handlers.len() - i,
        {
            let list = &handlers[i];
            let ghost before = format_views(formats@);
            let ghost before_owners = owners@;
            let mut k: usize = 0;
            while k < list.len()
                invariant
                    declared == handlers@.map_values(|list: Vec<TaskFormat>| format_views(list@)),
                    i < handlers.len(),
                    list == handlers[i as int],
                    k <= list.len(),
                    before == all_formats(declared.take(i as int)),
                    before_owners == all_owners(declared.take(i as int)),
                    format_views(formats@) == before + format_views(list@).take(k as int),
                    owners@ == before_owners + Seq::new(k as nat, |j: int| i),
                    first_repeat(format_views(formats@)) is None,
                decreases list.len() - k,
            {
                let format = &list[k];
                let ghost current = format_views(formats@);
                let mut j: usize = 0;
                let mut seen = false;
                while j < formats.len()
                    invariant
                        j <= formats.len(),
                        current == format_views(formats@),
                        seen == current.take(j as int).contains(format@),
                    decreases formats.len() - j,
                {
                    let same = formats[j].same_format(format);
                    proof {
                        assert(current[j as int] == formats@[j as int]@);
                        let shorter = current.take(j as int);
                        let longer = current.take(j + 1);
                        assert(longer == shorter.push(current[j as int]));
                        if shorter.contains(format@) {
                            let w = choose|w: int| 0 <= w < shorter.len() && shorter[w] == format@;
                            assert(longer[w] == format@);
                        }
                        if same {
                            assert(longer[j as int] == format@);
                        }
                        if longer.contains(format@) && !same {
                            let w = choose|w: int| 0 <= w < longer.len() && longer[w] == format@;
                            assert(w < j);
                            assert(shorter[w] == format@);
                        }
                    }
                    if same {
                        seen = true;
                    }
                    j = j + 1;
                }
                proof {
                    assert(current.take(j as int) == current);
                }
                if seen {
                    proof {
                        let extended = current.push(format@);
                        assert(extended.drop_last() == current);
                        assert(first_repeat(extended) == Some(current.len() as int));
                        lemma_all_formats_step(declared, i as int);
                        lemma_all_formats_prefix(declared, (i + 1) as int);
                        assert(declared.take(handlers.len() as int) == declared);
                        assert(declared[i as int] == format_views(list@));
                        let all = all_formats(declared);
                        let upto = all_formats(declared.take(i + 1));
                        assert(format_views(list@).take(k + 1) == format_views(list@).take(k as int).push(format@));
                        assert(extended == upto.take(extended.len() as int));
                        assert(all.take(extended.len() as int) == extended);
                        lemma_repeat_survives_extension(extended, all);
                    }
                    return Err(TaskHandlerRegistryError::DuplicateFormat(format.task_type.clone(), format.task_version));
                }
                formats.push(format.duplicate());
                owners.push(i);
                proof {
                    assert(format_views(list@).take(k + 1) == format_views(list@).take(k as int).push(format@));
                    assert(format_views(formats@) == current.push(format@));
                    assert(format_views(formats@).drop_last() == current);
                    assert(owners@ == before_owners + Seq::new((k + 1) as nat, |j: int| i));
                }
                k = k + 1;
            }
            proof {
                lemma_all_formats_step(declared, i as int);
                assert(declared[i as int] == format_views(list@));
                assert(format_views(list@).take(k as int) == format_views(list@));
                assert(Seq::new(k as nat, |j: int| i) == Seq::new(declared[i as int].len(), |j: int| i as usize));
            }
            i = i + 1;
        }
        proof {
            assert(declared.take(handlers.len() as int) == declared);
            lemma_no_repeat_means_distinct(format_views(formats@));
            lemma_owners_match_formats(declared);
        }
        if formats.len() == 0 {
            return Err(TaskHandlerRegistryError::Empty);
        }
        Ok(TaskRoutes { formats, owners })
    }

    /// The handler that serves `format`, if any.
    pub fn route(&self, format: &TaskFormat) -> (handler: Option<usize>)
        requires
            self.wf(),
        ensures
            match handler {
                Some(h) => exists|i: int|
                    0 <= i < self.spec_formats().len() && self.spec_formats()[i] == format@ && self.spec_owners()[i]
                        == h,
                None => !self.spec_formats().contains(format@),
            },
    {
        let mut i: usize = 0;
        while i < self.formats.len()
            invariant
                self.wf(),
                i <= self.formats.len(),
                forall|j: int| 0 <= j < i ==> self.spec_formats()[j] != format@,
            decreases self.formats.len() - i,
        {
            if self.formats[i].same_format(format) {
                assert(self.spec_formats()[i as int] == format@);
                return Some(self.owners[i]);
            }
            i = i + 1;
        }
        None
    }

    /// The handler that runs a task of `format`; a format that no handler declares fails
    /// permanently as unsupported.
    pub fn handler_for(&self, format: &TaskFormat) -> (handler: Result<usize, TaskExecutionError>)
        requires
            self.wf(),
        ensures
            match handler {
                Ok(h) => exists|i: int|
                    0 <= i < self.spec_formats().len() && self.spec_formats()[i] == format@ && self.spec_owners()[i]
                        == h,
                Err(error) => !self.spec_formats().contains(format@) && error@ == (TaskExecutionErrorView::Permanent {
                    reason: "unsupported task format"@,
                }),
            },
    {
        match self.route(format) {
            Some(h) => Ok(h),
            None => Err(TaskExecutionError::permanent("unsupported task format")),
        }
    }

    /// All routed formats, in handler order.
    pub fn formats(&self) -> (formats: Vec<TaskFormat>)
        ensures
            format_views(formats@) == self.spec_formats(),
    {
        let mut result: Vec<TaskFormat> = Vec::new();
        let mut i: usize = 0;
        while i < self.formats.len()
            invariant
                i <= self.formats.len(),
                format_views(result@) == self.spec_formats().take(i as int),
            decreases self.formats.len() - i,
        {
            result.push(self.formats[i].duplicate());
            proof {
                assert(self.spec_formats().take(i + 1) == self.spec_formats().take(i as int).push(
                    self.spec_formats()[i as int],
                ));
            }
            i = i + 1;
        }
        proof {
            assert(self.spec_formats().take(i as int) == self.spec_formats());
        }
        result
    }
}

} // verus!
