//! Which href a resource is polled at.
use vstd::prelude::*;

use crate::ResourceKind;

verus! {

/// The decimal digit `d`.
pub open spec fn digit_char(d: int) -> char {
    if d == 0 {
        '0'
    } else if d == 1 {
        '1'
    } else if d == 2 {
        '2'
    } else if d == 3 {
        '3'
    } else if d == 4 {
        '4'
    } else if d == 5 {
        '5'
    } else if d == 6 {
        '6'
    } else if d == 7 {
        '7'
    } else if d == 8 {
        '8'
    } else {
        '9'
    }
}

/// The decimal digits of `n`, most significant first, without leading zeros.
pub open spec fn decimal(n: nat) -> Seq<char>
    decreases n,
{
    if n < 10 {
        seq![digit_char(n as int)]
    } else {
        decimal(n / 10).push(digit_char((n % 10) as int))
    }
}

fn digit_str(d: u32) -> (r: &'static str)
    requires
        d < 10,
    ensures
        r@ == seq![digit_char(d as int)],
{
    match d {
        0 => {
            proof {
                reveal_strlit("0");
            }
            "0"
        },
        1 => {
            proof {
                reveal_strlit("1");
            }
            "1"
        },
        2 => {
            proof {
                reveal_strlit("2");
            }
            "2"
        },
        3 => {
            proof {
                reveal_strlit("3");
            }
            "3"
        },
        4 => {
            proof {
                reveal_strlit("4");
            }
            "4"
        },
        5 => {
            proof {
                reveal_strlit("5");
            }
            "5"
        },
        6 => {
            proof {
                reveal_strlit("6");
            }
            "6"
        },
        7 => {
            proof {
                reveal_strlit("7");
            }
            "7"
        },
        8 => {
            proof {
                reveal_strlit("8");
            }
            "8"
        },
        _ => {
            proof {
                reveal_strlit("9");
            }
            "9"
        },
    }
}

/// Appends the decimal digits of `n` to `s`.
pub fn push_decimal(s: &mut String, n: u32)
    ensures
        final(s)@ == old(s)@ + decimal(n as nat),
    decreases n,
{
    if n >= 10 {
        push_decimal(s, n / 10);
    }
    s.append(digit_str(n % 10));
    proof {
        if n >= 10 {
            assert(decimal(n as nat) == decimal((n / 10) as nat).push(digit_char((n % 10) as int)));
        }
    }
}

/// The href of a list, asking for at most `max_list_size` items.
pub open spec fn paginated_spec(uri: Seq<char>, max_list_size: nat) -> Seq<char> {
    uri + seq!['?', 'l', '='] + decimal(max_list_size)
}

/// The href of a list, asking for at most `max_list_size` items.
pub fn paginated_uri(uri: &str, max_list_size: u32) -> (r: String)
    ensures
        r@ == paginated_spec(uri@, max_list_size as nat),
{
    let mut s = String::from_str(uri);
    proof {
        reveal_strlit("?l=");
    }
    s.append("?l=");
    push_decimal(&mut s, max_list_size);
    assert(s@ =~= paginated_spec(uri@, max_list_size as nat));
    s
}

/// A list, polled with pagination.
pub open spec fn is_list(kind: ResourceKind) -> bool {
    match kind {
        ResourceKind::EndDeviceList | ResourceKind::FunctionSetAssignmentsList
        | ResourceKind::DERProgramList | ResourceKind::DERCurveList
        | ResourceKind::DERControlList => true,
        _ => false,
    }
}

/// A resource polled on its own: a list, the Time or a DefaultDERControl.
/// The other items are obtained through the lists that hold them.
pub open spec fn is_polled(kind: ResourceKind) -> bool {
    is_list(kind) || kind == ResourceKind::Time || kind == ResourceKind::DefaultDERControl
}

/// The href at which a resource of `kind` is polled, if it is polled on its
/// own: lists with pagination, the Time and default controls as they are.
pub fn poll_href(kind: ResourceKind, href: &str, max_list_size: u32) -> (r: Option<String>)
    ensures
        r matches Some(h) ==> is_polled(kind) && h@ == if is_list(kind) {
            paginated_spec(href@, max_list_size as nat)
        } else {
            href@
        },
        r is None <==> !is_polled(kind),
{
    match kind {
        ResourceKind::Time | ResourceKind::DefaultDERControl => Some(String::from_str(href)),
        ResourceKind::EndDeviceList | ResourceKind::FunctionSetAssignmentsList
        | ResourceKind::DERProgramList | ResourceKind::DERCurveList
        | ResourceKind::DERControlList => Some(paginated_uri(href, max_list_size)),
        ResourceKind::EndDevice | ResourceKind::FunctionSetAssignments | ResourceKind::DERProgram
        | ResourceKind::DERControl | ResourceKind::DERCurve => None,
    }
}

} // verus!
