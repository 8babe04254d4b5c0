//! Notification payload templates: the substitution marker, the default
//! template body, and the rendering step that substitutes the current
//! address for every occurrence of the marker.

use vstd::prelude::*;

verus! {

/// The substitution marker that a notification template carries.
pub open spec fn marker() -> Seq<char> {
    "#ip#"@
}

/// The default template body, used when no template record exists yet.
pub open spec fn default_template_text() -> Seq<char> {
    "{\"content\": \"IP has changed to #ip#\", \"username\": \"IP Notifier\"}"@
}

/// `t` with every occurrence of `pat`, scanned left to right without
/// overlap, replaced by `rep`. An empty `pat` replaces nothing.
pub open spec fn replace_all(t: Seq<char>, pat: Seq<char>, rep: Seq<char>) -> Seq<char>
    decreases t.len(),
{
    if pat.len() == 0 || t.len() < pat.len() {
        t
    } else if t.subrange(0, pat.len() as int) == pat {
        rep + replace_all(t.skip(pat.len() as int), pat, rep)
    } else {
        seq![t[0]] + replace_all(t.skip(1), pat, rep)
    }
}

/// Builds the default template body.
pub fn default_template() -> (t: String)
    ensures
        t@ == default_template_text(),
{
    "{\"content\": \"IP has changed to #ip#\", \"username\": \"IP Notifier\"}".to_owned()
}

/// Renders a notification body: every occurrence of the marker in
/// `template` is replaced by `addr`.
#[verifier::loop_isolation(false)]
pub fn render(template: &str, addr: &str) -> (r: String)
    ensures
        r@ == replace_all(template@, marker(), addr@),
{
    proof {
        reveal_strlit("#ip#");
    }
    let n = template.unicode_len();
    let mut out = String::new();
    let mut i: usize = 0;
    proof {
        assert(template@.skip(0) =~= template@);
        assert(out@ + replace_all(template@, marker(), addr@) =~= replace_all(
            template@,
            marker(),
            addr@,
        ));
    }
    while i < n
        invariant
            i <= n,
            replace_all(template@, marker(), addr@) == out@ + replace_all(
                template@.skip(i as int),
                marker(),
                addr@,
            ),
        decreases n - i,
    {
        let ghost s = template@.skip(i as int);
        let is_marker: bool;
        if n - i >= 4 {
            let c0 = template.get_char(i);
            let c1 = template.get_char(i + 1);
            let c2 = template.get_char(i + 2);
            let c3 = template.get_char(i + 3);
            is_marker = c0 == '#' && c1 == 'i' && c2 == 'p' && c3 == '#';
            proof {
                assert(s[0] == c0 && s[1] == c1 && s[2] == c2 && s[3] == c3);
            }
        } else {
            is_marker = false;
        }
        if is_marker {
            proof {
                assert(s.subrange(0, 4) =~= marker());
                assert(s.skip(4) =~= template@.skip(i as int + 4));
                assert(replace_all(s, marker(), addr@) == addr@ + replace_all(
                    s.skip(4),
                    marker(),
                    addr@,
                ));
            }
            out.append(addr);
            i = i + 4;
        } else {
            proof {
                if s.len() >= 4 {
                    assert(s.subrange(0, 4) != marker()) by {
                        if s.subrange(0, 4) == marker() {
                            assert(s[0] == marker()[0] && s[1] == marker()[1] && s[2]
                                == marker()[2] && s[3] == marker()[3]);
                        }
                    }
                    assert(replace_all(s, marker(), addr@) == seq![s[0]] + replace_all(
                        s.skip(1),
                        marker(),
                        addr@,
                    ));
                } else {
                    assert(replace_all(s, marker(), addr@) == s);
                    assert(replace_all(s.skip(1), marker(), addr@) == s.skip(1));
                    assert(s =~= seq![s[0]] + s.skip(1));
                }
                assert(template@.subrange(i as int, i as int + 1) =~= seq![s[0]]);
                assert(s.skip(1) =~= template@.skip(i as int + 1));
            }
            let piece = template.substring_char(i, i + 1);
            out.append(piece);
            i = i + 1;
        }
    }
    proof {
        assert(template@.skip(n as int) =~= Seq::<char>::empty());
        assert(out@ + Seq::<char>::empty() =~= out@);
    }
    out
}

/// The template actually used for a notification, together with the
/// rendered body: an existing stored template is reused unchanged, and
/// the default is created only when none is stored.
pub fn prepare_notification(stored: Option<String>, addr: &str) -> (r: (String, String))
    ensures
        r.0@ == (match stored {
            Some(t) => t@,
            None => default_template_text(),
        }),
        r.1@ == replace_all(r.0@, marker(), addr@),
{
    let template = match stored {
        Some(t) => t,
        None => default_template(),
    };
    let body = render(template.as_str(), addr);
    (template, body)
}

/// Law: rendering is a function of the template and the address alone, so
/// two notifications prepared from the same stored template and the same
/// address carry structurally identical bodies.
pub proof fn lemma_notification_idempotent(t: Seq<char>, a: Seq<char>, b1: Seq<char>, b2: Seq<char>)
    requires
        b1 == replace_all(t, marker(), a),
        b2 == replace_all(t, marker(), a),
    ensures
        b1 == b2,
{
}

} // verus!
