//! What holds of every URI.

use vstd::prelude::*;
use vstd::string::*;
use vstd::utf8::*;

use crate::percent;
use crate::text;
use crate::text_laws;
use crate::uri;
use crate::uri::{CacheMode, Mode, OpenOptions, Options};

verus! {

/// A text that does not begin with `file:` is a path, of which nothing else is
/// said.
pub proof fn other_texts_are_paths(s: Seq<char>)
    requires
        !text::begins_with(s, "file:"@),
    ensures
        uri::options_of(s) == Ok::<Options, Seq<char>>(uri::only_path(s)),
{
}

/// The fragment that a text after `#` means.
pub open spec fn fragment_of(f: Seq<char>) -> Option<Seq<char>> {
    if f.len() == 0 {
        None
    } else {
        Some(percent::decoded(f))
    }
}

/// No authority is accepted but an empty one and `localhost`.
pub proof fn authority_is_local(s: Seq<char>)
    ensures
        uri::options_of(s) matches Ok(o) ==> o.authority is None || o.authority == Some(
            "localhost"@,
        ),
{
    if text::begins_with(s, "file:"@) {
        let without_scheme = s.skip("file:"@.len() as int);
        let fragment = text::after(without_scheme, '#');
        let query = text::after(text::before(without_scheme, '#'), '?');
        lemma_params_say_nothing_else(
            Options { fragment: fragment_of(fragment), ..uri::only_path(Seq::empty()) },
            text::parts(query, '&'),
        );
    }
}

/// A fragment that is there is not empty.
pub proof fn fragment_is_not_empty(s: Seq<char>)
    ensures
        uri::options_of(s) matches Ok(o) ==> (o.fragment matches Some(f) ==> f.len() > 0),
{
    if text::begins_with(s, "file:"@) {
        let without_scheme = s.skip("file:"@.len() as int);
        let fragment = text::after(without_scheme, '#');
        let query = text::after(text::before(without_scheme, '#'), '?');
        percent::decoding_shortens(fragment);
        lemma_params_say_nothing_else(
            Options { fragment: fragment_of(fragment), ..uri::only_path(Seq::empty()) },
            text::parts(query, '&'),
        );
    }
}

/// Query parameters say nothing of the authority, the path and the fragment.
proof fn lemma_params_say_nothing_else(o: Options, params: Seq<Seq<char>>)
    ensures
        uri::with_params(o, params).0.authority == o.authority,
        uri::with_params(o, params).0.path == o.path,
        uri::with_params(o, params).0.fragment == o.fragment,
    decreases params.len(),
{
    if params.len() > 0 {
        lemma_params_say_nothing_else(o, params.drop_last());
    }
}

/// The name of a query parameter, if it has a value.
pub open spec fn name_of(param: Seq<char>) -> Option<Seq<char>> {
    match text::split_at_first(param, '=') {
        Some((key, _)) => Some(key),
        None => None,
    }
}

/// The names of query parameters that say something.
pub open spec fn is_known(name: Option<Seq<char>>) -> bool {
    ||| name == Some("mode"@)
    ||| name == Some("modeof"@)
    ||| name == Some("cache"@)
    ||| name == Some("immutable"@)
    ||| name == Some("vfs"@)
}

/// A query parameter without a value, or of an unknown name, says nothing.
pub proof fn unknown_parameters_say_nothing(o: Options, param: Seq<char>)
    requires
        !is_known(name_of(param)),
    ensures
        uri::with_param(o, param) == Ok::<Options, Seq<char>>(o),
{
}

/// Of two query parameters of the same name, the later one decides.
pub proof fn the_later_parameter_decides(o: Options, earlier: Seq<char>, later: Seq<char>)
    requires
        is_known(name_of(earlier)),
        name_of(earlier) == name_of(later),
        uri::with_param(o, earlier) is Ok,
    ensures
        uri::with_param(uri::with_param(o, earlier)->Ok_0, later) == uri::with_param(o, later),
{
}

/// Two query parameters of different names can stand in any order.
pub proof fn parameters_can_change_places(o: Options, a: Seq<char>, b: Seq<char>)
    requires
        name_of(a) != name_of(b),
        uri::with_param(o, a) is Ok,
        uri::with_param(o, b) is Ok,
    ensures
        uri::with_param(uri::with_param(o, a)->Ok_0, b) is Ok,
        uri::with_param(uri::with_param(o, a)->Ok_0, b) == uri::with_param(
            uri::with_param(o, b)->Ok_0,
            a,
        ),
{
}

/// A path without `%`, `#` and `?`, and that does not begin with `//`, is taken
/// as it is from a URI that holds nothing else.
pub proof fn a_plain_path_is_taken_as_it_is(path: Seq<char>)
    requires
        !path.contains('%'),
        !path.contains('#'),
        !path.contains('?'),
        !text::begins_with(path, "//"@),
    ensures
        uri::options_of("file:"@ + path) == Ok::<Options, Seq<char>>(uri::only_path(path)),
{
    lemma_only_location(path);
    lemma_plain(path);
}

/// A path is found again however it is percent-encoded, as long as the encoding
/// holds no `#` and `?` and does not begin with `//`.
pub proof fn an_encoded_path_is_found_again(e: Seq<char>, path: Seq<char>)
    requires
        percent::is_encoding(e, path),
        !e.contains('#'),
        !e.contains('?'),
        !text::begins_with(e, "//"@),
    ensures
        uri::options_of("file:"@ + e) == Ok::<Options, Seq<char>>(uri::only_path(path)),
{
    lemma_only_location(e);
    percent::decoding_undoes_encoding(e, path, Seq::empty());
    assert(e + Seq::<char>::empty() =~= e);
    assert(path + percent::decoded(Seq::empty()) =~= path);
}

/// Any path can be given percent-encoded, as far as percent-encoding reaches.
pub proof fn every_path_can_be_given(path: Seq<char>)
    requires
        forall|i: int| 0 <= i < path.len() ==> #[trigger] path[i] <= '\u{ff}',
    ensures
        uri::options_of("file:"@ + percent::encoded(path)) == Ok::<Options, Seq<char>>(
            uri::only_path(path),
        ),
{
    let e = percent::encoded(path);
    lemma_encoded_is_plain(path);
    reveal_strlit("//");
    assert(!text::begins_with(e, "//"@)) by {
        if text::begins_with(e, "//"@) {
            assert(e.take("//"@.len() as int)[0] == e[0]);
            assert("//"@[0] == '/');
        }
    }
    percent::every_byte_can_be_encoded(path);
    an_encoded_path_is_found_again(e, path);
}

/// A text without a `%` stands for itself.
proof fn lemma_plain(s: Seq<char>)
    requires
        !s.contains('%'),
    ensures
        percent::decoded(s) == s,
{
    let none = Seq::<char>::empty();
    percent::plain_text_is_left_alone(s, none);
    assert(s + none =~= s);
    assert(s + percent::decoded(none) =~= s);
}

proof fn lemma_encoded_is_plain(s: Seq<char>)
    requires
        forall|i: int| 0 <= i < s.len() ==> #[trigger] s[i] <= '\u{ff}',
    ensures
        !percent::encoded(s).contains('#'),
        !percent::encoded(s).contains('?'),
        !percent::encoded(s).contains('/'),
    decreases s.len(),
{
    if s.len() > 0 {
        lemma_encoded_is_plain(s.skip(1));
        lemma_encoded_char_is_plain(s[0]);
        let c = percent::encoded_char(s[0]);
        let e = percent::encoded(s);
        let rest = percent::encoded(s.skip(1));
        assert forall|i: int| 0 <= i < e.len() implies e[i] != '#' && e[i] != '?' && e[i]
            != '/' by {
            if i < 3 {
                assert(e[i] == c[i]);
            } else {
                assert(e[i] == rest[i - 3]);
                assert(rest.contains(e[i]));
            }
        }
    }
}

proof fn lemma_encoded_char_is_plain(c: char)
    requires
        c <= '\u{ff}',
    ensures
        forall|i: int|
            0 <= i < 3 ==> #[trigger] percent::encoded_char(c)[i] != '#' && percent::encoded_char(
                c,
            )[i] != '?' && percent::encoded_char(c)[i] != '/',
{
    assert(0 <= c as int / 16 < 16);
    assert(0 <= c as int % 16 < 16);
}

/// A URI with no fragment and no query is an authority and a path.
proof fn lemma_only_location(s: Seq<char>)
    requires
        !s.contains('#'),
        !s.contains('?'),
    ensures
        uri::options_of("file:"@ + s) == uri::with_location(uri::only_path(Seq::empty()), s),
{
    let whole = "file:"@ + s;
    assert(whole.take("file:"@.len() as int) =~= "file:"@);
    assert(whole.skip("file:"@.len() as int) =~= s);
    let none = Seq::<char>::empty();
    assert(text::parts(none, '&') =~= seq![none]);
    let o = uri::only_path(none);
    let params = seq![none];
    assert(params.drop_last() =~= Seq::empty());
    assert(uri::with_params(o, params.drop_last()) == (o, None::<Seq<char>>));
    assert(uri::with_param(o, none) == Ok::<Options, Seq<char>>(o));
    assert(uri::with_params(o, params) == (o, None::<Seq<char>>));
}

/// After `file://`, an authority that is allowed and a slash, a path without
/// `%`, `#` and `?` is taken as it is, with the slash before it.
pub proof fn a_path_after_an_authority_is_absolute(authority: Seq<char>, path: Seq<char>)
    requires
        authority.len() == 0 || authority == "localhost"@,
        path.len() > 0,
        !path.contains('%'),
        !path.contains('#'),
        !path.contains('?'),
    ensures
        uri::options_of("file:"@ + ("//"@ + authority + "/"@ + path)) == Ok::<Options, Seq<char>>(
            Options {
                authority: if authority.len() == 0 {
                    None
                } else {
                    Some(authority)
                },
                ..uri::only_path("/"@ + path)
            },
        ),
{
    reveal_strlit("//");
    reveal_strlit("/");
    reveal_strlit("localhost");
    let location = authority + "/"@ + path;
    let s = "//"@ + authority + "/"@ + path;
    assert forall|i: int| 0 <= i < s.len() implies s[i] != '#' && s[i] != '?' by {
        let n = 3 + authority.len();
        if i >= n {
            assert(s[i] == path[i - n]);
        } else if 2 <= i < n - 1 {
            assert(s[i] == authority[i - 2]);
        }
    }
    lemma_only_location(s);
    assert(s.take("//"@.len() as int) =~= "//"@);
    assert(s.skip("//"@.len() as int) =~= location);
    let n = authority.len() as int;
    assert(location[n] == '/');
    assert(location.contains('/'));
    assert forall|j: int| 0 <= j < n implies location[j] != '/' by {
        assert(location[j] == authority[j]);
    }
    text::lemma_position(location, '/', n);
    assert(location.take(n) =~= authority);
    assert(location.skip(n + 1) =~= path);
    lemma_plain(path);
}

/// What is said of a URI that is wrong: that a mode is none, or that an
/// authority is not allowed.
pub proof fn nothing_else_is_wrong(s: Seq<char>)
    ensures
        uri::options_of(s) matches Err(complaint) ==> {
            ||| exists|mode: Seq<char>|
                uri::mode_of(mode) is None && complaint == #[trigger] uri::mode_complaint(mode)
            ||| exists|authority: Seq<char>|
                authority != "localhost"@ && complaint == #[trigger] uri::authority_complaint(
                    authority,
                )
        },
{
    if text::begins_with(s, "file:"@) {
        let without_scheme = s.skip("file:"@.len() as int);
        let fragment = text::after(without_scheme, '#');
        let without_fragment = text::before(without_scheme, '#');
        let query = text::after(without_fragment, '?');
        let o = Options { fragment: fragment_of(fragment), ..uri::only_path(Seq::empty()) };
        lemma_only_modes_are_wrong(o, text::parts(query, '&'));
    }
}

proof fn lemma_only_modes_are_wrong(o: Options, params: Seq<Seq<char>>)
    ensures
        uri::with_params(o, params).1 matches Some(complaint) ==> exists|mode: Seq<char>|
            uri::mode_of(mode) is None && complaint == #[trigger] uri::mode_complaint(mode),
    decreases params.len(),
{
    if params.len() > 0 {
        lemma_only_modes_are_wrong(o, params.drop_last());
    }
}

/// A URI that has no fragment can be given one: that changes the fragment, and
/// nothing else.
pub proof fn a_fragment_changes_nothing_else(s: Seq<char>, f: Seq<char>)
    requires
        text::begins_with(s, "file:"@),
        !s.contains('#'),
    ensures
        uri::options_of(s + seq!['#'] + f) == match uri::options_of(s) {
            Ok(o) => Ok(Options { fragment: fragment_of(f), ..o }),
            Err(complaint) => Err(complaint),
        },
{
    reveal_strlit("file:");
    let n = "file:"@.len() as int;
    let whole = s + seq!['#'] + f;
    let rest = s.skip(n);
    let longer = whole.skip(n);
    assert(whole.take(n) =~= s.take(n));
    assert(longer =~= rest + seq!['#'] + f);
    assert forall|i: int| 0 <= i < rest.len() implies rest[i] != '#' by {
        assert(rest[i] == s[i + n]);
        assert(s.contains(s[i + n]));
    }
    let m = rest.len() as int;
    assert(longer[m] == '#');
    assert(longer.contains('#'));
    assert forall|j: int| 0 <= j < m implies longer[j] != '#' by {
        assert(longer[j] == rest[j]);
    }
    text::lemma_position(longer, '#', m);
    assert(longer.take(m) =~= rest);
    assert(longer.skip(m + 1) =~= f);
    assert(!rest.contains('#'));
    lemma_fragment_is_carried(
        uri::only_path(Seq::empty()),
        fragment_of(f),
        text::parts(text::after(rest, '?'), '&'),
    );
}

/// Query parameters do not depend on the fragment.
proof fn lemma_fragment_is_carried(
    o: Options,
    fragment: Option<Seq<char>>,
    params: Seq<Seq<char>>,
)
    ensures
        uri::with_params(Options { fragment, ..o }, params) == (
            Options { fragment, ..uri::with_params(o, params).0 },
            uri::with_params(o, params).1,
        ),
    decreases params.len(),
{
    if params.len() > 0 {
        lemma_fragment_is_carried(o, fragment, params.drop_last());
    }
}

/// Two queries joined by `&` say what one says after the other, up to the first
/// parameter that is wrong.
pub proof fn queries_can_be_joined(o: Options, first: Seq<char>, second: Seq<char>)
    ensures
        uri::with_params(o, text::parts(first + seq!['&'] + second, '&')) == {
            let (p, complaint) = uri::with_params(o, text::parts(first, '&'));
            if complaint is Some {
                (p, complaint)
            } else {
                uri::with_params(p, text::parts(second, '&'))
            }
        },
{
    text::lemma_parts_joined(first, second, '&');
    lemma_params_joined(o, text::parts(first, '&'), text::parts(second, '&'));
}

proof fn lemma_params_joined(o: Options, first: Seq<Seq<char>>, second: Seq<Seq<char>>)
    ensures
        uri::with_params(o, first + second) == {
            let (p, complaint) = uri::with_params(o, first);
            if complaint is Some {
                (p, complaint)
            } else {
                uri::with_params(p, second)
            }
        },
    decreases second.len(),
{
    if second.len() == 0 {
        assert(first + second =~= first);
    } else {
        lemma_params_joined(o, first, second.drop_last());
        assert((first + second).drop_last() =~= first + second.drop_last());
    }
}

/// Of a database of which only the path is known, everything else is as usual.
pub proof fn only_the_path_is_known(path: Seq<char>)
    ensures
        ({
            let o = uri::only_path(path);
            &&& o.path == path
            &&& o.authority is None
            &&& o.fragment is None
            &&& o.vfs is None
            &&& o.mode == Mode::ReadWriteCreate
            &&& o.modeof is None
            &&& o.cache is None
            &&& o.immutable is None
        }),
{
}

/// What contracts speak of tells every field of the options.
pub proof fn every_field_is_told(o: OpenOptions)
    ensures
        o@.path == o.path@,
        o@.mode == o.mode,
        o@.cache == o.cache,
        o@.immutable == o.immutable,
        o.authority is Some == o@.authority is Some,
        o.authority is Some ==> o@.authority->0 == o.authority->0@,
        o.fragment is Some == o@.fragment is Some,
        o.fragment is Some ==> o@.fragment->0 == o.fragment->0@,
        o.vfs is Some == o@.vfs is Some,
        o.vfs is Some ==> o@.vfs->0 == o.vfs->0@,
        o.modeof is Some == o@.modeof is Some,
        o.modeof is Some ==> o@.modeof->0 == o.modeof->0@,
{
}

/// Without an authority, what stands between `file:` and the query is the path,
/// percent-encoded.
pub proof fn a_path_without_an_authority(s: Seq<char>)
    requires
        !s.contains('#'),
        !s.contains('?'),
        !text::begins_with(s, "//"@),
    ensures
        uri::options_of("file:"@ + s) == Ok::<Options, Seq<char>>(
            uri::only_path(percent::decoded(s)),
        ),
{
    lemma_only_location(s);
}

/// After `file://` and an authority comes the path, with the slash before it,
/// percent-encoded as anywhere; it is empty if nothing comes after the slash.
/// No authority is allowed but an empty one and `localhost`, and the complaint
/// names the one that is not.
pub proof fn a_path_after_an_authority(authority: Seq<char>, e: Seq<char>)
    requires
        !authority.contains('/'),
        !authority.contains('#'),
        !authority.contains('?'),
        !e.contains('#'),
        !e.contains('?'),
    ensures
        ({
            let outcome = uri::options_of("file:"@ + ("//"@ + authority + "/"@ + e));
            if authority.len() == 0 || authority == "localhost"@ {
                outcome matches Ok(o) && {
                    &&& o.path == if e.len() == 0 {
                        Seq::empty()
                    } else {
                        "/"@ + percent::decoded(e)
                    }
                    &&& o.authority == if authority.len() == 0 {
                        None
                    } else {
                        Some(authority)
                    }
                    &&& o == (Options { authority: o.authority, ..uri::only_path(o.path) })
                }
            } else {
                outcome == Err::<Options, Seq<char>>(
                    "Invalid authority '"@ + authority + "'. Only '' or 'localhost' allowed."@,
                )
            }
        }),
{
    reveal_strlit("//");
    reveal_strlit("/");
    let location = authority + "/"@ + e;
    let s = "//"@ + authority + "/"@ + e;
    assert forall|i: int| 0 <= i < s.len() implies s[i] != '#' && s[i] != '?' by {
        let n = 3 + authority.len();
        if i >= n {
            assert(s[i] == e[i - n]);
            assert(e.contains(e[i - n]));
        } else if 2 <= i < n - 1 {
            assert(s[i] == authority[i - 2]);
            assert(authority.contains(authority[i - 2]));
        }
    }
    lemma_only_location(s);
    assert(s.take("//"@.len() as int) =~= "//"@);
    assert(s.skip("//"@.len() as int) =~= location);
    assert(location =~= authority + seq!['/'] + e);
    text_laws::the_first_separator_splits(authority, '/', e);
    assert(e.len() == 0 ==> e =~= Seq::empty());
}

/// An authority may come without a slash after it, and then there is no path.
pub proof fn an_authority_without_a_path(authority: Seq<char>)
    requires
        !authority.contains('/'),
        !authority.contains('#'),
        !authority.contains('?'),
    ensures
        uri::options_of("file:"@ + ("//"@ + authority)) == if authority.len() == 0 {
            Ok::<Options, Seq<char>>(uri::only_path(Seq::empty()))
        } else if authority == "localhost"@ {
            Ok(Options { authority: Some(authority), ..uri::only_path(Seq::empty()) })
        } else {
            Err("Invalid authority '"@ + authority + "'. Only '' or 'localhost' allowed."@)
        },
{
    reveal_strlit("//");
    let s = "//"@ + authority;
    assert forall|i: int| 0 <= i < s.len() implies s[i] != '#' && s[i] != '?' by {
        if i >= 2 {
            assert(s[i] == authority[i - 2]);
            assert(authority.contains(authority[i - 2]));
        }
    }
    lemma_only_location(s);
    assert(s.take("//"@.len() as int) =~= "//"@);
    assert(s.skip("//"@.len() as int) =~= authority);
    text_laws::the_first_separator_splits(authority, '/', Seq::empty());
    assert(text::after(authority, '/') =~= Seq::empty());
}

/// A path is found again after an authority too, however it is percent-encoded.
pub proof fn an_encoded_path_is_found_again_after_an_authority(
    authority: Seq<char>,
    e: Seq<char>,
    path: Seq<char>,
)
    requires
        authority.len() == 0 || authority == "localhost"@,
        path.len() > 0,
        percent::is_encoding(e, path),
        !e.contains('#'),
        !e.contains('?'),
    ensures
        uri::options_of("file:"@ + ("//"@ + authority + "/"@ + e)) matches Ok(o) && o.path == "/"@
            + path,
{
    reveal_strlit("localhost");
    a_path_after_an_authority(authority, e);
    percent::decoding_undoes_encoding(e, path, Seq::empty());
    assert(e + Seq::<char>::empty() =~= e);
    assert(path + percent::decoded(Seq::empty()) =~= path);
}

/// A query changes neither the authority nor the path, and says of the rest what
/// its parameters say. Where a parameter is wrong, that is what is said of the
/// URI, and otherwise what is wrong with it without the query.
pub proof fn a_query_says_what_its_parameters_say(l: Seq<char>, q: Seq<char>)
    requires
        !l.contains('#'),
        !l.contains('?'),
        !q.contains('#'),
    ensures
        ({
            let (p, complaint) = uri::with_params(
                uri::only_path(Seq::empty()),
                text::parts(q, '&'),
            );
            uri::options_of("file:"@ + l + "?"@ + q) == if complaint is Some {
                Err::<Options, Seq<char>>(complaint->0)
            } else {
                match uri::options_of("file:"@ + l) {
                    Ok(o) => Ok(Options { authority: o.authority, path: o.path, ..p }),
                    Err(c) => Err(c),
                }
            }
        }),
{
    reveal_strlit("file:");
    reveal_strlit("?");
    let whole = "file:"@ + l + "?"@ + q;
    let rest = l + seq!['?'] + q;
    let n = "file:"@.len() as int;
    assert(whole.take(n) =~= "file:"@);
    assert(whole.skip(n) =~= rest);
    assert forall|i: int| 0 <= i < rest.len() implies rest[i] != '#' by {
        if i < l.len() {
            assert(l.contains(l[i]));
        } else if i > l.len() {
            assert(rest[i] == q[i - l.len() - 1]);
            assert(q.contains(q[i - l.len() - 1]));
        }
    }
    assert(!rest.contains('#'));
    text_laws::the_first_separator_splits(rest, '#', Seq::empty());
    assert(text::after(rest, '#') =~= Seq::empty());
    text_laws::the_first_separator_splits(l, '?', q);
    lemma_only_location(l);
    lemma_params_say_nothing_else(uri::only_path(Seq::empty()), text::parts(q, '&'));
}

/// What one query parameter says: of a mode, by its name; of the cache, that it
/// is shared if it says so; that the database does not change, if it says `1`;
/// a VFS, or whose mode to take; and of any other name, nothing.
pub proof fn what_a_parameter_says(o: Options, key: Seq<char>, value: Seq<char>)
    requires
        !key.contains('='),
        !key.contains('&'),
        !value.contains('&'),
    ensures
        ({
            let text = percent::decoded(value);
            let said = uri::with_params(o, text::parts(key + seq!['='] + value, '&'));
            &&& key == "mode"@ ==> said == match uri::mode_of(value) {
                Some(mode) => (Options { mode, ..o }, None),
                None => (
                    o,
                    Some(
                        "Invalid mode: '"@ + value
                            + "'. Expected one of 'ro', 'rw', 'memory', 'rwc'"@,
                    ),
                ),
            }
            &&& key == "modeof"@ ==> said == (
                Options { modeof: Some(text), ..o },
                None::<Seq<char>>,
            )
            &&& key == "vfs"@ ==> said == (Options { vfs: Some(text), ..o }, None::<Seq<char>>)
            &&& key == "immutable"@ ==> said == (
                Options { immutable: Some(text == "1"@), ..o },
                None::<Seq<char>>,
            )
            &&& key == "cache"@ && text == "shared"@ ==> said == (
                Options { cache: Some(CacheMode::Shared), ..o },
                None::<Seq<char>>,
            )
            &&& key == "cache"@ && text != "shared"@ ==> said == (
                Options { cache: Some(CacheMode::Private), ..o },
                None::<Seq<char>>,
            )
            &&& key != "mode"@ && key != "modeof"@ && key != "vfs"@ && key != "immutable"@ && key
                != "cache"@ ==> said == (o, None::<Seq<char>>)
            &&& uri::with_params(o, text::parts(key, '&')) == (o, None::<Seq<char>>)
        }),
{
    let param = key + seq!['='] + value;
    assert forall|i: int| 0 <= i < param.len() implies param[i] != '&' by {
        if i < key.len() {
            assert(key.contains(key[i]));
        } else if i > key.len() {
            assert(param[i] == value[i - key.len() - 1]);
            assert(value.contains(value[i - key.len() - 1]));
        }
    }
    assert(!param.contains('&'));
    text_laws::separators_part(param, '&', Seq::empty());
    text_laws::separators_part(key, '&', Seq::empty());
    text_laws::the_first_separator_splits(key, '=', value);
    assert(seq![param].drop_last() =~= Seq::empty());
    assert(seq![key].drop_last() =~= Seq::empty());
    assert(uri::with_params(o, Seq::empty()) == (o, None::<Seq<char>>));
    reveal_strlit("mode");
    reveal_strlit("modeof");
    reveal_strlit("vfs");
    reveal_strlit("immutable");
    reveal_strlit("cache");
    assert("mode"@.len() == 4 && "modeof"@.len() == 6 && "vfs"@.len() == 3 && "immutable"@.len()
        == 9 && "cache"@.len() == 5);
}

/// A mode is known by one of four names, in whatever case and with white space
/// around it, and by nothing else.
pub proof fn modes_have_four_names(w: Seq<char>, name: Seq<char>, v: Seq<char>)
    requires
        text_laws::is_blank(w),
        text_laws::is_blank(v),
        name.len() > 0 ==> !text_laws::is_blank(seq![name[0]]) && !text_laws::is_blank(
            seq![name.last()],
        ),
        is_ascii_chars(name),
    ensures
        ({
            let mode = uri::mode_of(w + name + v);
            &&& mode == Some(Mode::ReadOnly) <==> text::same_ignoring_case(name, "ro"@)
            &&& mode == Some(Mode::ReadWrite) <==> text::same_ignoring_case(name, "rw"@)
            &&& mode == Some(Mode::Memory) <==> text::same_ignoring_case(name, "memory"@)
            &&& mode == Some(Mode::ReadWriteCreate) <==> text::same_ignoring_case(name, "rwc"@)
        }),
{
    text_laws::white_space_around_is_trimmed(w, name, v);
    lemma_mode_names();
}

proof fn lemma_mode_names()
    ensures
        text::lower_ascii("ro"@) == "ro"@,
        text::lower_ascii("rw"@) == "rw"@,
        text::lower_ascii("memory"@) == "memory"@,
        text::lower_ascii("rwc"@) == "rwc"@,
        "ro"@ != "rw"@,
        "ro"@.len() == 2,
        "rw"@.len() == 2,
        "memory"@.len() == 6,
        "rwc"@.len() == 3,
{
    reveal_strlit("ro");
    reveal_strlit("rw");
    reveal_strlit("memory");
    reveal_strlit("rwc");
    assert(text::lower_ascii("ro"@) =~= "ro"@);
    assert(text::lower_ascii("rw"@) =~= "rw"@);
    assert(text::lower_ascii("memory"@) =~= "memory"@);
    assert(text::lower_ascii("rwc"@) =~= "rwc"@);
    assert("ro"@[1] != "rw"@[1]);
}

/// Whatever text means a mode is, in lower case and without white space around
/// it, the name of that mode.
pub proof fn a_mode_is_named(s: Seq<char>)
    ensures
        uri::mode_of(s) matches Some(mode) ==> text::lowered(text::trimmed(s)) == match mode {
            Mode::ReadOnly => "ro"@,
            Mode::ReadWrite => "rw"@,
            Mode::Memory => "memory"@,
            Mode::ReadWriteCreate => "rwc"@,
        },
        uri::mode_of(s) is None ==> {
            let name = text::lowered(text::trimmed(s));
            name != "ro"@ && name != "rw"@ && name != "memory"@ && name != "rwc"@
        },
        uri::mode_complaint(s) == "Invalid mode: '"@ + s
            + "'. Expected one of 'ro', 'rw', 'memory', 'rwc'"@,
{
}

/// A name in lower case means the same mode as it does in a URI.
pub proof fn names_in_lower_case_mean_modes(s: Seq<char>)
    ensures
        uri::mode_named(s) == Some(Mode::ReadOnly) <==> s == "ro"@,
        uri::mode_named(s) == Some(Mode::ReadWrite) <==> s == "rw"@,
        uri::mode_named(s) == Some(Mode::Memory) <==> s == "memory"@,
        uri::mode_named(s) == Some(Mode::ReadWriteCreate) <==> s == "rwc"@,
{
    lemma_mode_names();
}

/// The cache is shared by the name `shared`, and private by any other.
pub proof fn only_one_name_shares_the_cache(s: Seq<char>)
    ensures
        uri::cache_mode(s) == CacheMode::Shared <==> s == "shared"@,
        uri::cache_mode(s) == CacheMode::Private <==> s != "shared"@,
{
}

/// A path begins with a drive if a colon and a slash come after its first
/// character, and only then.
pub proof fn a_drive_has_one_letter(d: char, rest: Seq<char>, path: Seq<char>)
    ensures
        uri::begins_with_drive(seq![d, ':', '/'] + rest),
        uri::begins_with_drive(path) ==> path == seq![path[0], ':', '/'] + path.skip(3),
{
    if uri::begins_with_drive(path) {
        assert(path =~= seq![path[0], ':', '/'] + path.skip(3));
    }
}

} // verus!
