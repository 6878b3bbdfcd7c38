//! Payloads and query parameters of the task endpoints.
use vstd::prelude::*;
use crate::models::{TaskPriority, TaskStatus};
use crate::validation::{
    failure, length_within, outcome, outcome_view, unless, FieldErrorModel, ValidationErrors,
};

verus! {

/// The body of a request that creates a task.
#[derive(Debug, Clone)]
pub struct CreateTaskPayload {
    pub project_id: u128,
    pub title: String,
    pub description: Option<String>,
    pub task_status: i64,
    pub task_priority: i64,
    pub due_date: Option<String>,
}

/// The body of a request that changes a task; absent fields stay as they are.
#[derive(Debug, Clone)]
pub struct UpdateTaskPayload {
    pub title: Option<String>,
    pub description: Option<String>,
    pub task_status: Option<i64>,
    pub task_priority: Option<i64>,
    pub due_date: Option<String>,
    pub position: Option<i32>,
}

/// The query of a task listing: `?status=..&priority=..&page=..&page_size=..`.
#[derive(Debug, Clone, Copy)]
pub struct TaskQuery {
    pub status: Option<i64>,
    pub priority: Option<i64>,
    pub page: Option<i32>,
    pub page_size: Option<i32>,
}

/// The status a listing is filtered by: the one asked for, or the default state.
#[derive(Debug, Clone, Copy, PartialEq, Eq, Structural)]
pub enum StatusFilter {
    Given(i64),
    Default(TaskStatus),
}

/// The priority a listing is filtered by: the one asked for, or the default one.
#[derive(Debug, Clone, Copy, PartialEq, Eq, Structural)]
pub enum PriorityFilter {
    Given(i64),
    Default(TaskPriority),
}

/// The failed check of a task title: 2 to 100 characters.
pub open spec fn title_failures(title: Seq<char>) -> Seq<FieldErrorModel> {
    unless(
        length_within(title.len(), Some(2), Some(100)),
        failure("title"@, "length"@, "Title must be between 2 and 100 characters"@),
    )
}

/// The failed check of a task description: at most 1000 characters.
pub open spec fn task_description_failures(description: Seq<char>) -> Seq<FieldErrorModel> {
    unless(
        length_within(description.len(), None, Some(1000)),
        failure("description"@, "length"@, "Description too long (1000 characters max)"@),
    )
}

/// The failed check of an optional description: none where it is absent.
pub open spec fn optional_description_failures(description: Option<String>) -> Seq<FieldErrorModel> {
    match description {
        Some(d) => task_description_failures(d@),
        None => Seq::empty(),
    }
}

impl CreateTaskPayload {
    /// The checks that fail on this payload: the title, then the description if given.
    pub open spec fn failures(&self) -> Seq<FieldErrorModel> {
        title_failures(self.title@) + optional_description_failures(self.description)
    }

    /// Validates the payload: it passes exactly when the title has 2 to 100
    /// characters and the description, if given, at most 1000.
    pub fn validate(&self) -> (r: Result<(), ValidationErrors>)
        ensures
            outcome_view(r) == outcome(self.failures()),
            r is Ok <==> (2 <= self.title@.len() <= 100 && (self.description matches Some(d)
                ==> d@.len() <= 1000)),
    {
        let mut errors = ValidationErrors::new();
        errors.check_length(
            "title",
            self.title.as_str(),
            Some(2),
            Some(100),
            "Title must be between 2 and 100 characters",
        );
        errors.check_optional_length(
            "description",
            &self.description,
            None,
            Some(1000),
            "Description too long (1000 characters max)",
        );
        assert(errors@ =~= self.failures());
        errors.into_result()
    }
}

impl UpdateTaskPayload {
    /// The checks that fail on this payload: the title if given, then the description if given.
    pub open spec fn failures(&self) -> Seq<FieldErrorModel> {
        (match self.title {
            Some(t) => title_failures(t@),
            None => Seq::empty(),
        }) + optional_description_failures(self.description)
    }

    /// Validates the payload: it passes exactly when the title, if given, has 2 to
    /// 100 characters and the description, if given, at most 1000.
    pub fn validate(&self) -> (r: Result<(), ValidationErrors>)
        ensures
            outcome_view(r) == outcome(self.failures()),
            r is Ok <==> ((self.title matches Some(t) ==> 2 <= t@.len() <= 100) && (
            self.description matches Some(d) ==> d@.len() <= 1000)),
    {
        let mut errors = ValidationErrors::new();
        errors.check_optional_length(
            "title",
            &self.title,
            Some(2),
            Some(100),
            "Title must be between 2 and 100 characters",
        );
        errors.check_optional_length(
            "description",
            &self.description,
            None,
            Some(1000),
            "Description too long (1000 characters max)",
        );
        assert(errors@ =~= self.failures());
        errors.into_result()
    }
}

impl TaskQuery {
    /// The page asked for, 1 where none is given.
    pub open spec fn spec_page(&self) -> i32 {
        match self.page {
            Some(p) => p,
            None => 1,
        }
    }

    /// The page size asked for, 20 where none is given.
    pub open spec fn spec_page_size(&self) -> i32 {
        match self.page_size {
            Some(s) => s,
            None => 20,
        }
    }

    /// The number of tasks the listing skips: `(page - 1) * page_size`.
    pub open spec fn spec_offset(&self) -> int {
        (self.spec_page() - 1) * self.spec_page_size()
    }

    /// Whether the offset is computed without leaving the range of `i32`.
    pub open spec fn window_fits(&self) -> bool {
        &&& i32::MIN <= self.spec_page() - 1
        &&& i32::MIN <= self.spec_offset() <= i32::MAX
    }

    /// The status filter: the one given, else `Todo`.
    pub fn status_filter(&self) -> (r: StatusFilter)
        ensures
            r == (match self.status {
                Some(s) => StatusFilter::Given(s),
                None => StatusFilter::Default(TaskStatus::Todo),
            }),
    {
        match self.status {
            Some(s) => StatusFilter::Given(s),
            None => StatusFilter::Default(TaskStatus::Todo),
        }
    }

    /// The priority filter: the one given, else `Medium`.
    pub fn priority_filter(&self) -> (r: PriorityFilter)
        ensures
            r == (match self.priority {
                Some(p) => PriorityFilter::Given(p),
                None => PriorityFilter::Default(TaskPriority::Medium),
            }),
    {
        match self.priority {
            Some(p) => PriorityFilter::Given(p),
            None => PriorityFilter::Default(TaskPriority::Medium),
        }
    }

    /// The page, 1 where none is given.
    pub fn page(&self) -> (r: i32)
        ensures
            r == self.spec_page(),
            self.page matches Some(p) ==> r == p,
            self.page is None ==> r == 1,
    {
        match self.page {
            Some(p) => p,
            None => 1,
        }
    }

    /// The page size, 20 where none is given.
    pub fn page_size(&self) -> (r: i32)
        ensures
            r == self.spec_page_size(),
            self.page_size matches Some(s) ==> r == s,
            self.page_size is None ==> r == 20,
    {
        match self.page_size {
            Some(s) => s,
            None => 20,
        }
    }

    /// The window of the listing as `(limit, offset)`: the page size and
    /// `(page - 1) * page_size`; `None` where that leaves the range of `i32`.
    pub fn page_window(&self) -> (r: Option<(i32, i32)>)
        ensures
            r is Some <==> self.window_fits(),
            r matches Some(w) ==> w.0 == self.spec_page_size() && w.1 == self.spec_offset(),
            r matches Some(w) ==> (self.page_size matches Some(s) ==> w.0 == s) && (
            self.page_size is None ==> w.0 == 20),
            r matches Some(w) ==> (self.page matches Some(p) ==> w.1 == (p - 1) * w.0) && (
            self.page is None ==> w.1 == 0),
    {
        let page: i32 = self.page();
        let size: i32 = self.page_size();
        if page == i32::MIN {
            return None;
        }
        let before: i64 = (page as i64) - 1;
        assert(-0x8000_0000_0000_0000 < before * (size as i64) < 0x7fff_ffff_ffff_ffff) by (nonlinear_arith)
            requires
                -0x8000_0001 <= before <= 0x7fff_ffff,
                -0x8000_0000 <= size <= 0x7fff_ffff,
        ;
        let product: i64 = before * (size as i64);
        assert(product == self.spec_offset()) by (nonlinear_arith)
            requires
                before == self.spec_page() - 1,
                size == self.spec_page_size(),
                product == before * size,
        ;
        if product < i32::MIN as i64 || product > i32::MAX as i64 {
            None
        } else {
            Some((size, product as i32))
        }
    }
}

} // verus!
