//! The template routes' decisions: which templates the Demo exposes, and the refusals of the
//! template catalogue.

use vstd::prelude::*;

use crate::error::ApiError;
use crate::text::text_around;

verus! {

/// Where a stored template came from.
#[derive(Debug, Clone, Copy, PartialEq, Eq, Structural)]
pub enum TemplateOrigin {
    /// Shipped with the application.
    Builtin,
    /// Loaded from a user catalogue file.
    Catalog,
    /// Created by a user.
    User,
}

/// The positions of the built-in templates among `origins`, in order: the only templates
/// the Demo lists.
pub fn builtin_positions(origins: &Vec<TemplateOrigin>) -> (r: Vec<usize>)
    ensures
        forall|k: int| 0 <= k < r@.len() ==> r@[k] < origins@.len() && origins@[r@[k] as int]
            == TemplateOrigin::Builtin,
        forall|k: int, l: int| 0 <= k < l < r@.len() ==> r@[k] < r@[l],
        forall|i: int|
            0 <= i < origins@.len() && origins@[i] == TemplateOrigin::Builtin ==> r@.contains(
                i as usize,
            ),
{
    let mut r: Vec<usize> = Vec::new();
    let mut i: usize = 0;
    while i < origins.len()
        invariant
            i <= origins@.len(),
            forall|k: int| 0 <= k < r@.len() ==> r@[k] < i && origins@[r@[k] as int]
                == TemplateOrigin::Builtin,
            forall|k: int, l: int| 0 <= k < l < r@.len() ==> r@[k] < r@[l],
            forall|j: int|
                0 <= j < i && origins@[j] == TemplateOrigin::Builtin ==> r@.contains(j as usize),
        decreases origins@.len() - i,
    {
        if origins[i] == TemplateOrigin::Builtin {
            let ghost before = r@;
            r.push(i);
            proof {
                assert(r@ == before.push(i));
                assert(r@[r@.len() - 1] == i);
                assert forall|j: int|
                    0 <= j < i + 1 && origins@[j] == TemplateOrigin::Builtin implies r@.contains(
                    j as usize,
                ) by {
                    if j == i {
                        assert(r@[r@.len() - 1] == j as usize);
                    } else {
                        assert(before.contains(j as usize));
                        let w = choose|w: int| 0 <= w < before.len() && before[w] == j as usize;
                        assert(r@[w] == j as usize);
                    }
                }
            }
        }
        i = i + 1;
    }
    r
}

/// The 404 for template `name`; `builtin` when only built-in templates are looked at.
pub fn no_template(name: &str, builtin: bool) -> (r: ApiError)
    ensures
        r matches ApiError::NotFound(m) && m@ == if builtin {
            "no built-in template named '"@ + name@ + "'"@
        } else {
            "no template named '"@ + name@ + "'"@
        },
{
    if builtin {
        ApiError::NotFound(text_around("no built-in template named '", name, "'"))
    } else {
        ApiError::NotFound(text_around("no template named '", name, "'"))
    }
}

/// The 409 refusing to create a template whose name is taken.
pub fn template_exists(name: &str) -> (r: ApiError)
    ensures
        r matches ApiError::Conflict(m) && m@ == "a template named '"@ + name@ + "' already exists"@,
{
    ApiError::Conflict(text_around("a template named '", name, "' already exists"))
}

} // verus!
