//! Sparse updates: from the fields a request carries to one parameterised
//! `UPDATE` statement whose placeholders and bound values agree by
//! construction.
//!
//! The builder appends a `column = $n` clause and pushes the value for `$n`
//! in the same step, so the n-th placeholder always stands for the n-th
//! bound value. Every statement also stamps `updated_at` and selects the
//! record by its key.

use crate::clock::{Id, Timestamp};
use crate::errors::{AppError, AppErrorView, ErrorKind};
use crate::models::{
    opt_text, opt_texts, CourseView, DifficultyLevel, Rating, TutorProfileView, UpdateCourseRequest,
    UpdateCourseRequestView, UpdateTutorProfileRequest, UpdateTutorProfileRequestView,
};
use crate::text::{decimal, push_decimal, texts};
use vstd::prelude::*;
use vstd::string::*;

verus! {

/// A table whose records can be updated sparsely.
#[derive(Clone, Copy, Debug, PartialEq, Eq, Structural)]
pub enum Table {
    Courses,
    Tutors,
}

/// A column a sparse update may assign.
#[derive(Clone, Copy, Debug, PartialEq, Eq, Structural)]
pub enum Column {
    Title,
    Description,
    Price,
    DurationMinutes,
    Category,
    DifficultyLevel,
    IsActive,
    Bio,
    Specializations,
    HourlyRate,
    YearsExperience,
    IsAvailable,
}

/// A value bound to a placeholder.
#[derive(Clone, Debug)]
pub enum SqlValue {
    Text(String),
    TextList(Vec<String>),
    Int(i32),
    Bool(bool),
    Level(DifficultyLevel),
    Time(Timestamp),
    Key(Id),
    /// An average, or the absence of one.
    Average(Option<Rating>),
    Count(u64),
}

/// Mathematical value of [`SqlValue`].
pub ghost enum SqlValueView {
    Text(Seq<char>),
    TextList(Seq<Seq<char>>),
    Int(i32),
    Bool(bool),
    Level(DifficultyLevel),
    Time(Timestamp),
    Key(Id),
    Average(Option<Rating>),
    Count(u64),
}

impl View for SqlValue {
    type V = SqlValueView;

    open spec fn view(&self) -> SqlValueView {
        match self {
            SqlValue::Text(s) => SqlValueView::Text(s@),
            SqlValue::TextList(l) => SqlValueView::TextList(texts(l@)),
            SqlValue::Int(i) => SqlValueView::Int(*i),
            SqlValue::Bool(b) => SqlValueView::Bool(*b),
            SqlValue::Level(l) => SqlValueView::Level(*l),
            SqlValue::Time(t) => SqlValueView::Time(*t),
            SqlValue::Key(k) => SqlValueView::Key(*k),
            SqlValue::Average(a) => SqlValueView::Average(*a),
            SqlValue::Count(c) => SqlValueView::Count(*c),
        }
    }
}

/// One assignment of a sparse update: a column and its new value.
pub ghost struct Change {
    pub column: Column,
    pub value: SqlValueView,
}

/// A parameterised statement and the values for `$1`, `$2`, ... in order.
#[derive(Clone, Debug)]
pub struct UpdateStatement {
    pub sql: String,
    pub binds: Vec<SqlValue>,
}

/// Mathematical value of [`UpdateStatement`].
pub ghost struct UpdateStatementView {
    pub sql: Seq<char>,
    pub binds: Seq<SqlValueView>,
}

/// Views of a list of bound values, in order.
pub open spec fn bind_views(binds: Seq<SqlValue>) -> Seq<SqlValueView> {
    binds.map_values(|v: SqlValue| v@)
}

impl View for UpdateStatement {
    type V = UpdateStatementView;

    open spec fn view(&self) -> UpdateStatementView {
        UpdateStatementView { sql: self.sql@, binds: bind_views(self.binds@) }
    }
}

// ---------------------------------------------------------------------------
// The text of a statement
// ---------------------------------------------------------------------------
pub open spec fn table_name(table: Table) -> Seq<char> {
    match table {
        Table::Courses => "courses"@,
        Table::Tutors => "tutors"@,
    }
}

/// The column a record of `table` is selected by: a course by its own
/// identifier, a tutor profile by its owning account.
pub open spec fn key_column(table: Table) -> Seq<char> {
    match table {
        Table::Courses => "id"@,
        Table::Tutors => "user_id"@,
    }
}

pub open spec fn column_name(column: Column) -> Seq<char> {
    match column {
        Column::Title => "title"@,
        Column::Description => "description"@,
        Column::Price => "price"@,
        Column::DurationMinutes => "duration_minutes"@,
        Column::Category => "category"@,
        Column::DifficultyLevel => "difficulty_level"@,
        Column::IsActive => "is_active"@,
        Column::Bio => "bio"@,
        Column::Specializations => "specializations"@,
        Column::HourlyRate => "hourly_rate"@,
        Column::YearsExperience => "years_experience"@,
        Column::IsAvailable => "is_available"@,
    }
}

/// `column = $position`.
pub open spec fn set_clause(column: Column, position: nat) -> Seq<char> {
    column_name(column) + " = $"@ + decimal(position)
}

/// The clauses of `columns`, each followed by `", "`; the i-th column
/// (counting from 1) is assigned placeholder `$i`.
pub open spec fn set_list(columns: Seq<Column>) -> Seq<char>
    decreases columns.len(),
{
    if columns.len() == 0 {
        Seq::empty()
    } else {
        set_list(columns.drop_last()) + set_clause(columns.last(), columns.len()) + ", "@
    }
}

/// `UPDATE <table> SET `, the head of every statement.
pub open spec fn update_head(table: Table) -> Seq<char> {
    "UPDATE "@ + table_name(table) + " SET "@
}

/// What follows the clauses of `n` columns: the time stamp on placeholder
/// `n + 1` and the key on placeholder `n + 2`.
pub open spec fn update_tail(table: Table, n: nat) -> Seq<char> {
    "updated_at = $"@ + decimal(n + 1) + " WHERE "@ + key_column(table) + " = $"@ + decimal(n + 2)
}

/// The full text of the statement that assigns `columns` in `table`.
pub open spec fn update_sql(table: Table, columns: Seq<Column>) -> Seq<char> {
    update_head(table) + set_list(columns) + update_tail(table, columns.len())
}

pub open spec fn columns_of(changes: Seq<Change>) -> Seq<Column> {
    changes.map_values(|c: Change| c.column)
}

pub open spec fn values_of(changes: Seq<Change>) -> Seq<SqlValueView> {
    changes.map_values(|c: Change| c.value)
}

/// The failure for an update that would change nothing.
pub open spec fn no_fields_failure() -> AppErrorView {
    AppErrorView { kind: ErrorKind::BadRequest, detail: "No fields to update"@ }
}

/// The statement for `changes` on the record of `table` selected by `key`,
/// stamped `now`; a failure when there is no change to make.
pub open spec fn statement_for(
    table: Table,
    changes: Seq<Change>,
    key: Id,
    now: Timestamp,
) -> Result<UpdateStatementView, AppErrorView> {
    if changes.len() == 0 {
        Err(no_fields_failure())
    } else {
        Ok(
            UpdateStatementView {
                sql: update_sql(table, columns_of(changes)),
                binds: values_of(changes) + seq![SqlValueView::Time(now), SqlValueView::Key(key)],
            },
        )
    }
}

/// View of a statement result.
pub open spec fn statement_result(
    r: Result<UpdateStatement, AppError>,
) -> Result<UpdateStatementView, AppErrorView> {
    match r {
        Ok(s) => Ok(s@),
        Err(e) => Err(e@),
    }
}

impl Table {
    pub fn name(self) -> (s: &'static str)
        ensures
            s@ == table_name(self),
    {
        match self {
            Table::Courses => "courses",
            Table::Tutors => "tutors",
        }
    }

    pub fn key(self) -> (s: &'static str)
        ensures
            s@ == key_column(self),
    {
        match self {
            Table::Courses => "id",
            Table::Tutors => "user_id",
        }
    }
}

impl Column {
    pub fn name(self) -> (s: &'static str)
        ensures
            s@ == column_name(self),
    {
        match self {
            Column::Title => "title",
            Column::Description => "description",
            Column::Price => "price",
            Column::DurationMinutes => "duration_minutes",
            Column::Category => "category",
            Column::DifficultyLevel => "difficulty_level",
            Column::IsActive => "is_active",
            Column::Bio => "bio",
            Column::Specializations => "specializations",
            Column::HourlyRate => "hourly_rate",
            Column::YearsExperience => "years_experience",
            Column::IsAvailable => "is_available",
        }
    }
}

// ---------------------------------------------------------------------------
// The builder
// ---------------------------------------------------------------------------
/// Accumulates the assignments of one statement.
pub struct UpdateBuilder {
    table: Table,
    sql: String,
    binds: Vec<SqlValue>,
    columns: Vec<Column>,
}

impl UpdateBuilder {
    #[verifier::type_invariant]
    spec fn consistent(self) -> bool {
        &&& self.sql@ == update_head(self.table) + set_list(self.columns@)
        &&& self.binds.len() == self.columns.len()
    }

    /// The table this builder updates.
    pub closed spec fn table(self) -> Table {
        self.table
    }

    /// The assignments made so far, in the order they were made.
    pub closed spec fn changes(self) -> Seq<Change> {
        Seq::new(
            self.columns.len() as nat,
            |i: int| Change { column: self.columns@[i], value: self.binds@[i]@ },
        )
    }

    /// A builder for `table` with no assignment yet.
    pub fn new(table: Table) -> (b: UpdateBuilder)
        ensures
            b.table() == table,
            b.changes() == Seq::<Change>::empty(),
    {
        let mut sql = String::from_str("UPDATE ");
        sql.append(table.name());
        sql.append(" SET ");
        let b = UpdateBuilder { table, sql, binds: Vec::new(), columns: Vec::new() };
        assert(b.sql@ =~= update_head(table) + set_list(b.columns@));
        assert(b.changes() =~= Seq::<Change>::empty());
        b
    }

    /// Assigns `value` to `column` on the next free placeholder.
    pub fn set(self, column: Column, value: SqlValue) -> (b: UpdateBuilder)
        ensures
            b.table() == self.table(),
            b.changes() == self.changes().push(Change { column, value: value@ }),
    {
        proof {
            use_type_invariant(&self);
        }
        let ghost pushed = self.changes().push(Change { column, value: value@ });
        let ghost before = self.columns@;
        let table = self.table;
        let position: u128 = self.columns.len() as u128 + 1;
        let mut sql = self.sql;
        let mut binds = self.binds;
        let mut columns = self.columns;
        sql.append(column.name());
        sql.append(" = $");
        push_decimal(&mut sql, position);
        sql.append(", ");
        binds.push(value);
        columns.push(column);
        proof {
            assert(columns@.drop_last() =~= before);
            assert(sql@ =~= update_head(table) + set_list(columns@));
        }
        let b = UpdateBuilder { table, sql, binds, columns };
        assert(b.changes() =~= pushed);
        b
    }

    /// Closes the statement: stamps `updated_at` with `now` and selects the
    /// record by `key`. Fails with `BadRequest` when nothing was assigned.
    pub fn finish(self, key: Id, now: Timestamp) -> (r: Result<UpdateStatement, AppError>)
        ensures
            statement_result(r) == statement_for(self.table(), self.changes(), key, now),
    {
        proof {
            use_type_invariant(&self);
        }
        let ghost changes = self.changes();
        let table = self.table;
        let n: u128 = self.columns.len() as u128;
        if n == 0 {
            return Err(AppError::BadRequest(String::from_str("No fields to update")));
        }
        let ghost columns = self.columns@;
        let mut sql = self.sql;
        let mut binds = self.binds;
        sql.append("updated_at = $");
        push_decimal(&mut sql, n + 1);
        sql.append(" WHERE ");
        sql.append(table.key());
        sql.append(" = $");
        push_decimal(&mut sql, n + 2);
        binds.push(SqlValue::Time(now));
        binds.push(SqlValue::Key(key));
        proof {
            assert(columns_of(changes) =~= columns);
            assert(sql@ =~= update_sql(table, columns));
            assert(bind_views(binds@) =~= values_of(changes) + seq![
                SqlValueView::Time(now),
                SqlValueView::Key(key),
            ]);
        }
        Ok(UpdateStatement { sql, binds })
    }
}

// ---------------------------------------------------------------------------
// From requests to statements
// ---------------------------------------------------------------------------
/// The assignment of `column`, if a value is present.
pub open spec fn optional_change(column: Column, value: Option<SqlValueView>) -> Seq<Change> {
    match value {
        Some(v) => seq![Change { column, value: v }],
        None => Seq::empty(),
    }
}

pub open spec fn text_value(o: Option<Seq<char>>) -> Option<SqlValueView> {
    match o {
        Some(t) => Some(SqlValueView::Text(t)),
        None => None,
    }
}

pub open spec fn list_value(o: Option<Seq<Seq<char>>>) -> Option<SqlValueView> {
    match o {
        Some(l) => Some(SqlValueView::TextList(l)),
        None => None,
    }
}

pub open spec fn int_value(o: Option<i32>) -> Option<SqlValueView> {
    match o {
        Some(i) => Some(SqlValueView::Int(i)),
        None => None,
    }
}

pub open spec fn bool_value(o: Option<bool>) -> Option<SqlValueView> {
    match o {
        Some(b) => Some(SqlValueView::Bool(b)),
        None => None,
    }
}

pub open spec fn level_value(o: Option<DifficultyLevel>) -> Option<SqlValueView> {
    match o {
        Some(l) => Some(SqlValueView::Level(l)),
        None => None,
    }
}

/// The assignments a course request asks for: its present fields, in
/// declaration order.
pub open spec fn course_changes(r: UpdateCourseRequestView) -> Seq<Change> {
    optional_change(Column::Title, text_value(r.title)) + optional_change(
        Column::Description,
        text_value(r.description),
    ) + optional_change(Column::Price, int_value(r.price)) + optional_change(
        Column::DurationMinutes,
        int_value(r.duration_minutes),
    ) + optional_change(Column::Category, text_value(r.category)) + optional_change(
        Column::DifficultyLevel,
        level_value(r.difficulty_level),
    ) + optional_change(Column::IsActive, bool_value(r.is_active))
}

/// The assignments a profile request asks for: its present fields, in
/// declaration order.
pub open spec fn profile_changes(r: UpdateTutorProfileRequestView) -> Seq<Change> {
    optional_change(Column::Bio, text_value(r.bio)) + optional_change(
        Column::Specializations,
        list_value(r.specializations),
    ) + optional_change(Column::HourlyRate, int_value(r.hourly_rate)) + optional_change(
        Column::YearsExperience,
        int_value(r.years_experience),
    ) + optional_change(Column::IsAvailable, bool_value(r.is_available))
}

impl UpdateBuilder {
    /// Assigns `value` to `column` if it is present.
    pub fn set_optional(self, column: Column, value: Option<SqlValue>) -> (b: UpdateBuilder)
        ensures
            b.table() == self.table(),
            b.changes() == self.changes() + optional_change(
                column,
                match value {
                    Some(v) => Some(v@),
                    None => None,
                },
            ),
    {
        match value {
            Some(v) => {
                let b = self.set(column, v);
                assert(b.changes() =~= self.changes() + seq![Change { column, value: v@ }]);
                b
            },
            None => {
                assert(self.changes() =~= self.changes() + Seq::<Change>::empty());
                self
            },
        }
    }
}

fn text_bind(value: Option<String>) -> (v: Option<SqlValue>)
    ensures
        (match v {
            Some(b) => Some(b@),
            None => None,
        }) == text_value(opt_text(value)),
{
    match value {
        Some(t) => Some(SqlValue::Text(t)),
        None => None,
    }
}

fn list_bind(value: Option<Vec<String>>) -> (v: Option<SqlValue>)
    ensures
        (match v {
            Some(b) => Some(b@),
            None => None,
        }) == list_value(opt_texts(value)),
{
    match value {
        Some(l) => Some(SqlValue::TextList(l)),
        None => None,
    }
}

fn int_bind(value: Option<i32>) -> (v: Option<SqlValue>)
    ensures
        (match v {
            Some(b) => Some(b@),
            None => None,
        }) == int_value(value),
{
    match value {
        Some(i) => Some(SqlValue::Int(i)),
        None => None,
    }
}

fn bool_bind(value: Option<bool>) -> (v: Option<SqlValue>)
    ensures
        (match v {
            Some(b) => Some(b@),
            None => None,
        }) == bool_value(value),
{
    match value {
        Some(i) => Some(SqlValue::Bool(i)),
        None => None,
    }
}

fn level_bind(value: Option<DifficultyLevel>) -> (v: Option<SqlValue>)
    ensures
        (match v {
            Some(b) => Some(b@),
            None => None,
        }) == level_value(value),
{
    match value {
        Some(i) => Some(SqlValue::Level(i)),
        None => None,
    }
}

/// A request without a present field asks for no assignment, and only such
/// a request does.
pub proof fn lemma_course_changes_empty(r: UpdateCourseRequestView)
    ensures
        course_changes(r).len() == 0 <==> r.is_empty(),
{
}

/// A request without a present field asks for no assignment, and only such
/// a request does.
pub proof fn lemma_profile_changes_empty(r: UpdateTutorProfileRequestView)
    ensures
        profile_changes(r).len() == 0 <==> r.is_empty(),
{
}

/// The statement that writes the present fields of `request` to the course
/// `course_id`. Fails with `BadRequest` exactly when no field is present.
pub fn course_update(request: UpdateCourseRequest, course_id: Id, now: Timestamp) -> (r: Result<
    UpdateStatement,
    AppError,
>)
    ensures
        statement_result(r) == statement_for(
            Table::Courses,
            course_changes(request@),
            course_id,
            now,
        ),
        r is Err <==> request@.is_empty(),
{
    let ghost v = request@;
    let b0 = UpdateBuilder::new(Table::Courses);
    let b1 = b0.set_optional(Column::Title, text_bind(request.title));
    let b2 = b1.set_optional(Column::Description, text_bind(request.description));
    let b3 = b2.set_optional(Column::Price, int_bind(request.price));
    let b4 = b3.set_optional(Column::DurationMinutes, int_bind(request.duration_minutes));
    let b5 = b4.set_optional(Column::Category, text_bind(request.category));
    let b6 = b5.set_optional(Column::DifficultyLevel, level_bind(request.difficulty_level));
    let b7 = b6.set_optional(Column::IsActive, bool_bind(request.is_active));
    proof {
        assert(b1.changes() =~= optional_change(Column::Title, text_value(v.title)));
        assert(b7.changes() == course_changes(v));
        lemma_course_changes_empty(v);
    }
    b7.finish(course_id, now)
}

/// The statement that writes the present fields of `request` to the profile
/// owned by account `user_id`. Fails with `BadRequest` exactly when no field
/// is present.
pub fn profile_update(request: UpdateTutorProfileRequest, user_id: Id, now: Timestamp) -> (r:
    Result<UpdateStatement, AppError>)
    ensures
        statement_result(r) == statement_for(
            Table::Tutors,
            profile_changes(request@),
            user_id,
            now,
        ),
        r is Err <==> request@.is_empty(),
{
    let ghost v = request@;
    let b0 = UpdateBuilder::new(Table::Tutors);
    let b1 = b0.set_optional(Column::Bio, text_bind(request.bio));
    let b2 = b1.set_optional(Column::Specializations, list_bind(request.specializations));
    let b3 = b2.set_optional(Column::HourlyRate, int_bind(request.hourly_rate));
    let b4 = b3.set_optional(Column::YearsExperience, int_bind(request.years_experience));
    let b5 = b4.set_optional(Column::IsAvailable, bool_bind(request.is_available));
    proof {
        assert(b1.changes() =~= optional_change(Column::Bio, text_value(v.bio)));
        assert(b5.changes() == profile_changes(v));
        lemma_profile_changes_empty(v);
    }
    b5.finish(user_id, now)
}

// ---------------------------------------------------------------------------
// What a statement does to a record
// ---------------------------------------------------------------------------
/// `profile` after one assignment. An assignment to a column of another
/// table, or of a value of the wrong type, changes nothing.
pub open spec fn profile_with(profile: TutorProfileView, change: Change) -> TutorProfileView {
    match (change.column, change.value) {
        (Column::Bio, SqlValueView::Text(t)) => TutorProfileView { bio: t, ..profile },
        (Column::Specializations, SqlValueView::TextList(l)) => TutorProfileView {
            specializations: l,
            ..profile
        },
        (Column::HourlyRate, SqlValueView::Int(i)) => TutorProfileView {
            hourly_rate: i,
            ..profile
        },
        (Column::YearsExperience, SqlValueView::Int(i)) => TutorProfileView {
            years_experience: i,
            ..profile
        },
        (Column::IsAvailable, SqlValueView::Bool(b)) => TutorProfileView {
            is_available: b,
            ..profile
        },
        _ => profile,
    }
}

/// `profile` after the assignments of `changes`, first to last.
pub open spec fn profile_with_all(
    profile: TutorProfileView,
    changes: Seq<Change>,
) -> TutorProfileView
    decreases changes.len(),
{
    if changes.len() == 0 {
        profile
    } else {
        profile_with(profile_with_all(profile, changes.drop_last()), changes.last())
    }
}

/// The stored profile after a statement with `changes`, stamped `now`, has
/// run on `profile`.
pub open spec fn profile_after(
    profile: TutorProfileView,
    changes: Seq<Change>,
    now: Timestamp,
) -> TutorProfileView {
    TutorProfileView { updated_at: now, ..profile_with_all(profile, changes) }
}

/// `course` after one assignment. An assignment to a column of another
/// table, or of a value of the wrong type, changes nothing.
pub open spec fn course_with(course: CourseView, change: Change) -> CourseView {
    match (change.column, change.value) {
        (Column::Title, SqlValueView::Text(t)) => CourseView { title: t, ..course },
        (Column::Description, SqlValueView::Text(t)) => CourseView { description: t, ..course },
        (Column::Price, SqlValueView::Int(i)) => CourseView { price: i, ..course },
        (Column::DurationMinutes, SqlValueView::Int(i)) => CourseView {
            duration_minutes: i,
            ..course
        },
        (Column::Category, SqlValueView::Text(t)) => CourseView { category: t, ..course },
        (Column::DifficultyLevel, SqlValueView::Level(l)) => CourseView {
            difficulty_level: l,
            ..course
        },
        (Column::IsActive, SqlValueView::Bool(b)) => CourseView { is_active: b, ..course },
        _ => course,
    }
}

/// `course` after the assignments of `changes`, first to last.
pub open spec fn course_with_all(course: CourseView, changes: Seq<Change>) -> CourseView
    decreases changes.len(),
{
    if changes.len() == 0 {
        course
    } else {
        course_with(course_with_all(course, changes.drop_last()), changes.last())
    }
}

/// The stored course after a statement with `changes`, stamped `now`, has
/// run on `course`.
pub open spec fn course_after(
    course: CourseView,
    changes: Seq<Change>,
    now: Timestamp,
) -> CourseView {
    CourseView { updated_at: now, ..course_with_all(course, changes) }
}

/// The new value of a field: the requested one if present, else the old one.
pub open spec fn patched<T>(requested: Option<T>, current: T) -> T {
    match requested {
        Some(v) => v,
        None => current,
    }
}

proof fn lemma_profile_with_optional(
    profile: TutorProfileView,
    done: Seq<Change>,
    column: Column,
    value: Option<SqlValueView>,
)
    ensures
        profile_with_all(profile, done + optional_change(column, value)) == match value {
            Some(v) => profile_with(profile_with_all(profile, done), Change { column, value: v }),
            None => profile_with_all(profile, done),
        },
{
    let all = done + optional_change(column, value);
    match value {
        Some(v) => {
            assert(all.drop_last() =~= done);
            assert(all.last() == Change { column, value: v });
        },
        None => {
            assert(all =~= done);
        },
    }
}

proof fn lemma_course_with_optional(
    course: CourseView,
    done: Seq<Change>,
    column: Column,
    value: Option<SqlValueView>,
)
    ensures
        course_with_all(course, done + optional_change(column, value)) == match value {
            Some(v) => course_with(course_with_all(course, done), Change { column, value: v }),
            None => course_with_all(course, done),
        },
{
    let all = done + optional_change(column, value);
    match value {
        Some(v) => {
            assert(all.drop_last() =~= done);
            assert(all.last() == Change { column, value: v });
        },
        None => {
            assert(all =~= done);
        },
    }
}

/// A sparse profile update changes exactly the fields it carries and the
/// modification time: every present field takes its new value, every absent
/// field and every field no request can name (identifiers, rating, review
/// count, verification, creation time) keeps the value it had.
pub proof fn lemma_profile_update_touches_only_present_fields(
    profile: TutorProfileView,
    request: UpdateTutorProfileRequestView,
    now: Timestamp,
)
    ensures
        profile_after(profile, profile_changes(request), now) == (TutorProfileView {
            bio: patched(request.bio, profile.bio),
            specializations: patched(request.specializations, profile.specializations),
            hourly_rate: patched(request.hourly_rate, profile.hourly_rate),
            years_experience: patched(request.years_experience, profile.years_experience),
            is_available: patched(request.is_available, profile.is_available),
            updated_at: now,
            ..profile
        }),
{
    let c0 = Seq::<Change>::empty();
    let c1 = c0 + optional_change(Column::Bio, text_value(request.bio));
    let c2 = c1 + optional_change(Column::Specializations, list_value(request.specializations));
    let c3 = c2 + optional_change(Column::HourlyRate, int_value(request.hourly_rate));
    let c4 = c3 + optional_change(Column::YearsExperience, int_value(request.years_experience));
    let c5 = c4 + optional_change(Column::IsAvailable, bool_value(request.is_available));
    lemma_profile_with_optional(profile, c0, Column::Bio, text_value(request.bio));
    lemma_profile_with_optional(
        profile,
        c1,
        Column::Specializations,
        list_value(request.specializations),
    );
    lemma_profile_with_optional(profile, c2, Column::HourlyRate, int_value(request.hourly_rate));
    lemma_profile_with_optional(
        profile,
        c3,
        Column::YearsExperience,
        int_value(request.years_experience),
    );
    lemma_profile_with_optional(
        profile,
        c4,
        Column::IsAvailable,
        bool_value(request.is_available),
    );
    assert(c1 =~= optional_change(Column::Bio, text_value(request.bio)));
    assert(c5 == profile_changes(request));
}

/// A sparse course update changes exactly the fields it carries and the
/// modification time: every present field takes its new value, every absent
/// field and every field no request can name (identifiers, creation time)
/// keeps the value it had.
pub proof fn lemma_course_update_touches_only_present_fields(
    course: CourseView,
    request: UpdateCourseRequestView,
    now: Timestamp,
)
    ensures
        course_after(course, course_changes(request), now) == (CourseView {
            title: patched(request.title, course.title),
            description: patched(request.description, course.description),
            price: patched(request.price, course.price),
            duration_minutes: patched(request.duration_minutes, course.duration_minutes),
            category: patched(request.category, course.category),
            difficulty_level: patched(request.difficulty_level, course.difficulty_level),
            is_active: patched(request.is_active, course.is_active),
            updated_at: now,
            ..course
        }),
{
    let c0 = Seq::<Change>::empty();
    let c1 = c0 + optional_change(Column::Title, text_value(request.title));
    let c2 = c1 + optional_change(Column::Description, text_value(request.description));
    let c3 = c2 + optional_change(Column::Price, int_value(request.price));
    let c4 = c3 + optional_change(Column::DurationMinutes, int_value(request.duration_minutes));
    let c5 = c4 + optional_change(Column::Category, text_value(request.category));
    let c6 = c5 + optional_change(Column::DifficultyLevel, level_value(request.difficulty_level));
    let c7 = c6 + optional_change(Column::IsActive, bool_value(request.is_active));
    lemma_course_with_optional(course, c0, Column::Title, text_value(request.title));
    lemma_course_with_optional(course, c1, Column::Description, text_value(request.description));
    lemma_course_with_optional(course, c2, Column::Price, int_value(request.price));
    lemma_course_with_optional(
        course,
        c3,
        Column::DurationMinutes,
        int_value(request.duration_minutes),
    );
    lemma_course_with_optional(course, c4, Column::Category, text_value(request.category));
    lemma_course_with_optional(
        course,
        c5,
        Column::DifficultyLevel,
        level_value(request.difficulty_level),
    );
    lemma_course_with_optional(course, c6, Column::IsActive, bool_value(request.is_active));
    assert(c1 =~= optional_change(Column::Title, text_value(request.title)));
    assert(c7 == course_changes(request));
}

/// The n-th placeholder of a statement stands for the n-th bound value: the
/// clause of the i-th change names its column and placeholder `$(i + 1)`,
/// the value bound at index `i` is that change's value, and the time stamp
/// and the key follow on the next two placeholders.
pub proof fn lemma_placeholders_match_binds(
    table: Table,
    changes: Seq<Change>,
    key: Id,
    now: Timestamp,
    i: int,
)
    requires
        0 <= i < changes.len(),
    ensures
        statement_for(table, changes, key, now) is Ok,
        ({
            let s = statement_for(table, changes, key, now)->Ok_0;
            let columns = columns_of(changes);
            &&& s.binds.len() == changes.len() + 2
            &&& s.binds[i] == changes[i].value
            &&& s.binds[changes.len() as int] == SqlValueView::Time(now)
            &&& s.binds[changes.len() as int + 1] == SqlValueView::Key(key)
            &&& set_list(columns.take(i + 1)) == set_list(columns.take(i)) + set_clause(
                changes[i].column,
                (i + 1) as nat,
            ) + ", "@
        }),
{
    let columns = columns_of(changes);
    assert(columns.take(i + 1).drop_last() =~= columns.take(i));
}

} // verus!
