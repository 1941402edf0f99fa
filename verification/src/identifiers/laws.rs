//! What the written forms of identifiers read back as.
use vstd::prelude::*;
use crate::identifiers::uri::{split_slash, path_segments, is_reg_name, mimi_prefix, mimi_uri, plain_path, device_uri};
use crate::identifiers::id::{url_safe_char, unreserved_char, unreserved_text};
use crate::identifiers::user::user_id_parts;
use crate::identifiers::device::device_id_parts;
use crate::identifiers::room::room_id_parts;
use crate::identifiers::error::ProtonMeetIdError;

verus! {

/// `s` holds no slash.
pub open spec fn no_slash(s: Seq<char>) -> bool {
    forall|k: int| 0 <= k < s.len() ==> s[k] != '/'
}

/// A text without slashes is one segment.
proof fn lemma_split_one(b: Seq<char>)
    requires
        no_slash(b),
    ensures
        split_slash(b) == seq![b],
    decreases b.len(),
{
    if b.len() > 0 {
        let c = b.drop_last();
        assert(no_slash(c)) by {
            assert forall|k: int| 0 <= k < c.len() implies c[k] != '/' by {
                assert(c[k] == b[k]);
            }
        }
        lemma_split_one(c);
        assert(b.last() != '/') by {
            assert(b.last() == b[b.len() - 1]);
        }
        let p = split_slash(c);
        assert(p == seq![c]);
        assert(c.push(b.last()) =~= b);
        assert(p.update(p.len() - 1, p.last().push(b.last())) =~~= seq![b]);
    } else {
        assert(b =~= Seq::<char>::empty());
    }
}

/// A slash and a text without slashes add one segment.
proof fn lemma_split_push(x: Seq<char>, b: Seq<char>)
    requires
        no_slash(b),
    ensures
        split_slash(x + seq!['/'] + b) == split_slash(x).push(b),
    decreases b.len(),
{
    let y = x + seq!['/'] + b;
    if b.len() == 0 {
        assert(y.drop_last() =~= x);
        assert(y.last() == '/');
        assert(b =~= Seq::<char>::empty());
    } else {
        let c = b.drop_last();
        assert(no_slash(c)) by {
            assert forall|k: int| 0 <= k < c.len() implies c[k] != '/' by {
                assert(c[k] == b[k]);
            }
        }
        lemma_split_push(x, c);
        assert(y.drop_last() =~= x + seq!['/'] + c);
        assert(y.last() == b.last());
        assert(b.last() != '/') by {
            assert(b.last() == b[b.len() - 1]);
        }
        let p = split_slash(x + seq!['/'] + c);
        assert(p == split_slash(x).push(c));
        assert(c.push(b.last()) =~= b);
        assert(p.update(p.len() - 1, p.last().push(b.last())) =~~= split_slash(x).push(b));
    }
}

/// Reading the host and path of a written user identifier,
/// `mimi://{domain}/u/{id}`, gives its domain and identifier back.
pub proof fn lemma_user_id_parts_of_written(d: Seq<char>, i: Seq<char>)
    requires
        is_reg_name(d),
        i.len() > 0,
        no_slash(i),
    ensures
        user_id_parts(Some(d), seq!['/', 'u', '/'] + i) == Ok::<(Seq<char>, Seq<char>), ProtonMeetIdError>((d, i)),
{
    let path = seq!['/', 'u', '/'] + i;
    assert(path.drop_first() == seq!['u'] + seq!['/'] + i);
    lemma_split_one(seq!['u']);
    lemma_split_push(seq!['u'], i);
    assert(path_segments(path) == Some(seq![seq!['u'], i]));
}

/// Reading the host and path of a written device identifier,
/// `mimi://{domain}/u/{user}/d/{id}`, gives its domain, its user's
/// identifier and its own identifier back; read as a user, it gives the
/// user owning the device.
pub proof fn lemma_device_id_parts_of_written(d: Seq<char>, u: Seq<char>, i: Seq<char>)
    requires
        is_reg_name(d),
        u.len() > 0,
        i.len() > 0,
        no_slash(u),
        no_slash(i),
    ensures
        device_id_parts(Some(d), seq!['/', 'u', '/'] + u + seq!['/', 'd', '/'] + i) == Ok::<
            (Seq<char>, Seq<char>, Seq<char>),
            ProtonMeetIdError,
        >((d, u, i)),
        user_id_parts(Some(d), seq!['/', 'u', '/'] + u + seq!['/', 'd', '/'] + i) == Ok::<
            (Seq<char>, Seq<char>),
            ProtonMeetIdError,
        >((d, u)),
{
    let path = seq!['/', 'u', '/'] + u + seq!['/', 'd', '/'] + i;
    let x = seq!['u'] + seq!['/'] + u;
    let y = x + seq!['/'] + seq!['d'];
    assert(path.drop_first() == y + seq!['/'] + i);
    assert(no_slash(seq!['d']));
    lemma_split_one(seq!['u']);
    lemma_split_push(seq!['u'], u);
    lemma_split_push(x, seq!['d']);
    lemma_split_push(y, i);
    assert(path_segments(path) == Some(seq![seq!['u'], u, seq!['d'], i]));
}

/// Reading the host and path of a written room identifier,
/// `mimi://{domain}/r/{id}`, gives its domain and identifier back.
pub proof fn lemma_room_id_parts_of_written(d: Seq<char>, i: Seq<char>)
    requires
        is_reg_name(d),
        no_slash(i),
    ensures
        room_id_parts(Some(d), seq!['/', 'r', '/'] + i) == Ok::<(Seq<char>, Seq<char>), ProtonMeetIdError>((d, i)),
{
    let path = seq!['/', 'r', '/'] + i;
    assert(path.drop_first() == seq!['r'] + seq!['/'] + i);
    lemma_split_one(seq!['r']);
    lemma_split_push(seq!['r'], i);
    assert(path_segments(path) == Some(seq![seq!['r'], i]));
}

/// Unreserved text holds no slash.
pub proof fn lemma_unreserved_no_slash(i: Seq<char>)
    requires
        unreserved_text(i),
    ensures
        no_slash(i),
{
    assert forall|k: int| 0 <= k < i.len() implies i[k] != '/' by {
        assert(unreserved_char(i[k]));
    }
}

/// The URI of a user or room, `mimi://{domain}/{code}/{id}`, is the prefix,
/// the domain and a plain path, for an identifier of unreserved characters.
pub proof fn lemma_written_uri_shape(d: Seq<char>, code: char, i: Seq<char>)
    requires
        url_safe_char(code),
        unreserved_text(i),
    ensures
        mimi_uri(d, code, i) == mimi_prefix() + d + (seq!['/', code, '/'] + i),
        plain_path(seq!['/', code, '/'] + i),
{
    let p = seq!['/', code, '/'] + i;
    assert(mimi_uri(d, code, i) =~= mimi_prefix() + d + p);
    assert forall|k: int| 0 <= k < p.len() implies (p[k] == '/' || unreserved_char(#[trigger] p[k])) by {
        if k >= 3 {
            assert(p[k] == i[k - 3]);
        }
    }
}

/// The URI of a device, `mimi://{domain}/u/{user}/d/{id}`, is the prefix,
/// the domain and a plain path, for identifiers of unreserved characters.
pub proof fn lemma_device_uri_shape(d: Seq<char>, u: Seq<char>, i: Seq<char>)
    requires
        unreserved_text(u),
        unreserved_text(i),
    ensures
        device_uri(d, u, i) == mimi_prefix() + d + (seq!['/', 'u', '/'] + u + seq!['/', 'd', '/'] + i),
        plain_path(seq!['/', 'u', '/'] + u + seq!['/', 'd', '/'] + i),
{
    let p = seq!['/', 'u', '/'] + u + seq!['/', 'd', '/'] + i;
    assert(device_uri(d, u, i) =~= mimi_prefix() + d + p);
    assert forall|k: int| 0 <= k < p.len() implies (p[k] == '/' || unreserved_char(#[trigger] p[k])) by {
        if 3 <= k < 3 + u.len() {
            assert(p[k] == u[k - 3]);
        } else if k >= 6 + u.len() {
            assert(p[k] == i[k - 6 - u.len()]);
        }
    }
}

} // verus!
