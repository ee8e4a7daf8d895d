//! The validation aggregator and the assembled form.
use crate::controls::{BuiltControlData, ShowWhenFn, ValidationFn};
use vstd::prelude::*;

verus! {

/// Every check in `checks` may be run on `fd`.
pub open spec fn checks_ready<FD, E: ValidationFn<FD>>(checks: Seq<E>, fd: FD) -> bool {
    forall|i: int| 0 <= i < checks.len() ==> #[trigger] checks[i].validate_requires(fd)
}

/// The check may pass on `fd`.
pub open spec fn may_pass<FD, E: ValidationFn<FD>>(check: E, fd: FD) -> bool {
    exists|r: Result<(), String>| check.validate_ensures(fd, r) && r is Ok
}

/// What running `checks` in order on `fd` and stopping at the first failure
/// may give: success when every check passed, else the first failure.
pub open spec fn first_failure<FD, E: ValidationFn<FD>>(
    checks: Seq<E>,
    fd: FD,
    r: Result<(), String>,
) -> bool {
    match r {
        Ok(_) => forall|i: int| 0 <= i < checks.len() ==> may_pass(#[trigger] checks[i], fd),
        Err(_) => exists|k: int|
            0 <= k < checks.len() && #[trigger] checks[k].validate_ensures(fd, r) && forall|i: int|
                0 <= i < k ==> may_pass(#[trigger] checks[i], fd),
    }
}

fn run_checks<FD, E: ValidationFn<FD>>(checks: &Vec<E>, fd: &FD) -> (r: Result<(), String>)
    requires
        checks_ready(checks@, *fd),
    ensures
        first_failure(checks@, *fd, r),
{
    let mut i: usize = 0;
    while i < checks.len()
        invariant
            i <= checks@.len(),
            checks_ready(checks@, *fd),
            forall|j: int| 0 <= j < i ==> may_pass(#[trigger] checks@[j], *fd),
        decreases checks@.len() - i,
    {
        let res = checks[i].validate(fd);
        if res.is_err() {
            assert(checks@[i as int].validate_ensures(*fd, res));
            return res;
        }
        assert(may_pass(checks@[i as int], *fd));
        i += 1;
    }
    Ok(())
}

/// Validates records with the checks of all fields of a form, in the order
/// in which the fields were declared.
pub struct FormValidator<E> {
    pub validations: Vec<E>,
}

impl<E> FormValidator<E> {
    /// A validator that runs `validations` in order.
    pub fn new(validations: Vec<E>) -> (r: Self)
        ensures
            r.validations == validations,
    {
        FormValidator { validations }
    }

    /// Runs the checks in order and returns the first failure, if any;
    /// the checks after it do not run.
    pub fn validate<FD>(&self, form_data: &FD) -> (r: Result<(), String>) where
        E: ValidationFn<FD>,
        requires
            checks_ready(self.validations@, *form_data),
        ensures
            first_failure(self.validations@, *form_data, r),
    {
        run_checks(&self.validations, form_data)
    }
}

/// An assembled form: the record, the checks of its fields in declaration
/// order, and the rendered view.
pub struct Form<FD, E, VW> {
    pub fd: FD,
    pub validations: Vec<E>,
    pub view: VW,
}

impl<FD, E, VW> Form<FD, E, VW> {
    /// Assembles a form from its record, its checks and its view.
    pub fn new(fd: FD, validations: Vec<E>, view: VW) -> (r: Self)
        ensures
            r.fd == fd,
            r.validations == validations,
            r.view == view,
    {
        Form { fd, validations, view }
    }

    /// A validator with this form's checks.
    pub fn validator(&self) -> (r: FormValidator<E>) where E: Clone
        ensures
            r.validations@.len() == self.validations@.len(),
            forall|i: int|
                0 <= i < self.validations@.len() ==> cloned(
                    self.validations@[i],
                    #[trigger] r.validations@[i],
                ),
    {
        FormValidator { validations: self.validations.clone() }
    }

    /// Validates the form's current record.
    pub fn validate(&self) -> (r: Result<(), String>) where E: ValidationFn<FD>
        requires
            checks_ready(self.validations@, self.fd),
        ensures
            first_failure(self.validations@, self.fd, r),
    {
        run_checks(&self.validations, &self.fd)
    }

    /// Splits this form into its record, its validator and its view.
    pub fn to_parts(self) -> (r: (FD, FormValidator<E>, VW))
        ensures
            r.0 == self.fd,
            r.1.validations == self.validations,
            r.2 == self.view,
    {
        (self.fd, FormValidator { validations: self.validations }, self.view)
    }

    /// The rendered view of this form.
    pub fn into_view(self) -> (r: VW)
        ensures
            r == self.view,
    {
        self.view
    }
}

/// One field's entry in a form's validation: the finalized control and the
/// context in which its visibility is decided.
pub struct FieldCheck<D, CX> {
    pub control: D,
    pub context: CX,
}

impl<FD, CX, C, A, G, S, P, U, V, W> ValidationFn<FD> for FieldCheck<
    BuiltControlData<C, A, G, S, P, U, V, W>,
    CX,
> where V: ValidationFn<FD>, W: ShowWhenFn<FD, CX> {
    open spec fn validate_requires(&self, fd: FD) -> bool {
        self.control.check_requires(fd, self.context)
    }

    open spec fn validate_ensures(&self, fd: FD, r: Result<(), String>) -> bool {
        self.control.check_ensures(fd, self.context, r)
    }

    fn validate(&self, fd: &FD) -> (r: Result<(), String>) {
        self.control.check(fd, &self.context)
    }
}

/// The field's control is hidden for `fd`: its visibility predicate can
/// only answer no.
pub open spec fn is_hidden<FD, CX, C, A, G, S, P, U, V, W>(
    f: FieldCheck<BuiltControlData<C, A, G, S, P, U, V, W>, CX>,
    fd: FD,
) -> bool where W: ShowWhenFn<FD, CX> {
    forall|shown: bool| f.control.may_show(fd, f.context, shown) ==> !shown
}

/// The field's own validation cannot fail on `fd`.
pub open spec fn own_check_passes<FD, CX, C, A, G, S, P, U, V, W>(
    f: FieldCheck<BuiltControlData<C, A, G, S, P, U, V, W>, CX>,
    fd: FD,
) -> bool where V: ValidationFn<FD> {
    f.control.validation_fn matches Some(v) ==> forall|r: Result<(), String>|
        v.validate_ensures(fd, r) ==> r is Ok
}

/// Hidden fields never block: when every field is hidden for the record or
/// passes its own validation, validating the record succeeds.
pub proof fn lemma_hidden_fields_do_not_block<FD, CX, C, A, G, S, P, U, V, W>(
    checks: Seq<FieldCheck<BuiltControlData<C, A, G, S, P, U, V, W>, CX>>,
    fd: FD,
    r: Result<(), String>,
) where V: ValidationFn<FD>, W: ShowWhenFn<FD, CX>
    requires
        first_failure(checks, fd, r),
        forall|i: int|
            0 <= i < checks.len() ==> is_hidden(#[trigger] checks[i], fd) || own_check_passes(
                checks[i],
                fd,
            ),
    ensures
        r is Ok,
{
    if r is Err {
        let k = choose|k: int|
            0 <= k < checks.len() && #[trigger] checks[k].validate_ensures(fd, r) && forall|i: int|
                0 <= i < k ==> may_pass(#[trigger] checks[i], fd);
        assert(is_hidden(checks[k], fd) || own_check_passes(checks[k], fd));
        assert(checks[k].control.may_show(fd, checks[k].context, true));
    }
}

/// The first failure wins: when the checks before the `k`-th can only pass
/// and the `k`-th can only fail, validation fails as the `k`-th does, and
/// no later check decides the outcome.
pub proof fn lemma_first_failure_wins<FD, E: ValidationFn<FD>>(
    checks: Seq<E>,
    fd: FD,
    k: int,
    r: Result<(), String>,
)
    requires
        0 <= k < checks.len(),
        first_failure(checks, fd, r),
        forall|i: int, x: Result<(), String>|
            0 <= i < k && #[trigger] checks[i].validate_ensures(fd, x) ==> x is Ok,
        forall|x: Result<(), String>| #[trigger] checks[k].validate_ensures(fd, x) ==> x is Err,
    ensures
        r is Err,
        checks[k].validate_ensures(fd, r),
{
    if r is Ok {
        assert(may_pass(checks[k], fd));
    } else {
        let j = choose|j: int|
            0 <= j < checks.len() && #[trigger] checks[j].validate_ensures(fd, r) && forall|i: int|
                0 <= i < j ==> may_pass(#[trigger] checks[i], fd);
        if j < k {
            assert(checks[j].validate_ensures(fd, r));
        } else if j > k {
            assert(may_pass(checks[k], fd));
        }
    }
}

} // verus!
