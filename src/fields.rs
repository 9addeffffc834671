use vstd::prelude::*;

verus! {

/// The value a layer leaves in a field: its own where it sets one, else the
/// value below it.
pub open spec fn over<T>(o: Option<T>, below: T) -> T {
    match o {
        Some(v) => v,
        None => below,
    }
}

/// `over` for text fields, compared by their characters.
pub open spec fn over_text(o: Option<String>, below: Seq<char>) -> Seq<char> {
    match o {
        Some(s) => s@,
        None => below,
    }
}

/// Replaces `*target` with the value that `o` carries, if any.
pub fn set_if_some<T: Copy>(target: &mut T, o: Option<T>)
    ensures
        *final(target) == over(o, *old(target)),
{
    if let Some(v) = o {
        *target = v;
    }
}

/// Replaces `*target` with a copy of the text that `o` carries, if any.
pub fn set_text_if_some(target: &mut String, o: &Option<String>)
    ensures
        final(target)@ == over_text(*o, old(target)@),
{
    if let Some(v) = o {
        *target = v.clone();
    }
}

/// Replaces `*target` with a copy of the mailbox that `o` carries, if any.
pub fn set_mailbox_if_some(
    target: &mut Option<lettre::message::Mailbox>,
    o: &Option<lettre::message::Mailbox>,
)
    ensures
        *final(target) == (match *o {
            Some(m) => Some(m),
            None => *old(target),
        }),
{
    if let Some(v) = o {
        *target = Some(v.clone());
    }
}

} // verus!
