//! Rewriting of the active configuration before it is handed to the core
//! process: the console log sink is forced on, and a control-plane section
//! with a listen address — and, in defined cases, a secret — is guaranteed.

use vstd::prelude::*;

use crate::config_doc::{keys_unique, lookup, obj_get, obj_set, obj_take, ConfigValue};

verus! {

/// The control-plane listen address used when the document names none.
pub open spec fn default_listen() -> Seq<char> {
    "127.0.0.1:9090"@
}

/// The entries of `v` when it is an object; empty otherwise.
pub open spec fn obj_entries(v: ConfigValue) -> Seq<(String, ConfigValue)> {
    match v {
        ConfigValue::Obj(es) => es@,
        _ => Seq::<(String, ConfigValue)>::empty(),
    }
}

/// The view of a string value, if that is what an optional lookup found.
pub open spec fn as_str_opt(v: Option<ConfigValue>) -> Option<Seq<char>> {
    match v {
        Some(ConfigValue::Str(s)) => Some(s@),
        _ => None,
    }
}

/// The control-plane section the document carried, if it was an object
/// inside an `experimental` object.
pub open spec fn clash_api_of(top: Seq<(String, ConfigValue)>) -> Option<
    Seq<(String, ConfigValue)>,
> {
    match lookup(top, "experimental"@) {
        Some(ConfigValue::Obj(ex)) => match lookup(ex@, "clash_api"@) {
            Some(ConfigValue::Obj(ca)) => Some(ca@),
            _ => None,
        },
        _ => None,
    }
}

/// The listen address the normalized document ends up with: what the
/// pre-existing control-plane section held as a string, else the default.
pub open spec fn normalized_listen(top: Seq<(String, ConfigValue)>) -> Seq<char> {
    match clash_api_of(top) {
        Some(ca) => match as_str_opt(lookup(ca, "external_controller"@)) {
            Some(s) => s,
            None => default_listen(),
        },
        None => default_listen(),
    }
}

/// The secret the supervisor passes to its control connections. A
/// pre-existing section keeps its own string secret, or none: a section
/// the supervisor itself creates receives the fresh token. The asymmetry
/// is deliberate: a user-supplied section without a secret is trusted as
/// intentionally open.
pub open spec fn normalized_secret(top: Seq<(String, ConfigValue)>, fresh: Seq<char>) -> Option<
    Seq<char>,
> {
    match clash_api_of(top) {
        Some(ca) => as_str_opt(lookup(ca, "secret"@)),
        None => Some(fresh),
    }
}

/// How the log section is rewritten: the file sink switch is dropped,
/// console output is forced and timestamping is turned off; every other
/// key keeps its value.
pub open spec fn log_section_normalized(
    lm: Seq<(String, ConfigValue)>,
    lm2: Seq<(String, ConfigValue)>,
) -> bool {
    &&& keys_unique(lm2)
    &&& lookup(lm2, "disabled"@) is None
    &&& as_str_opt(lookup(lm2, "output"@)) == Some("stdout"@)
    &&& lookup(lm2, "timestamp"@) == Some(ConfigValue::Bool(false))
    &&& forall|k: Seq<char>|
        k != "disabled"@ && k != "output"@ && k != "timestamp"@ ==> lookup(lm2, k) == lookup(
            lm,
            k,
        )
}

/// How the rewritten control-plane section relates to the original
/// document `top` and the fresh token.
pub open spec fn clash_api_section_normalized(
    top: Seq<(String, ConfigValue)>,
    fresh: String,
    ca2: Seq<(String, ConfigValue)>,
) -> bool {
    &&& keys_unique(ca2)
    &&& as_str_opt(lookup(ca2, "external_controller"@)) == Some(normalized_listen(top))
    &&& lookup(ca2, "secret"@) == (match clash_api_of(top) {
        Some(ca) => lookup(ca, "secret"@),
        None => Some(ConfigValue::Str(fresh)),
    })
    &&& forall|k: Seq<char>|
        k != "external_controller"@ && k != "secret"@ ==> lookup(ca2, k) == (
        match clash_api_of(top) {
            Some(ca) => lookup(ca, k),
            None => None,
        })
}

/// How the rewritten `experimental` object relates to the original
/// document: it holds the normalized control-plane section, and keeps
/// every other key the original `experimental` object held, if any.
pub open spec fn experimental_normalized(
    top: Seq<(String, ConfigValue)>,
    fresh: String,
    ex2: Seq<(String, ConfigValue)>,
) -> bool {
    &&& keys_unique(ex2)
    &&& (lookup(ex2, "clash_api"@) matches Some(ConfigValue::Obj(ca2))
        && clash_api_section_normalized(top, fresh, ca2@))
    &&& forall|k: Seq<char>|
        k != "clash_api"@ ==> lookup(ex2, k) == (match lookup(top, "experimental"@) {
            Some(ConfigValue::Obj(ex)) => lookup(ex@, k),
            _ => None,
        })
}

/// The whole effect of normalization on the top-level document.
pub open spec fn normalize_post(
    top: Seq<(String, ConfigValue)>,
    fresh: String,
    top2: Seq<(String, ConfigValue)>,
) -> bool {
    &&& keys_unique(top2)
    &&& (match lookup(top, "log"@) {
        Some(ConfigValue::Obj(lm)) => lookup(top2, "log"@) matches Some(ConfigValue::Obj(lm2))
            && log_section_normalized(lm@, lm2@),
        _ => lookup(top2, "log"@) == lookup(top, "log"@),
    })
    &&& (lookup(top2, "experimental"@) matches Some(ConfigValue::Obj(ex2))
        && experimental_normalized(top, fresh, ex2@))
    &&& forall|k: Seq<char>|
        k != "log"@ && k != "experimental"@ ==> lookup(top2, k) == lookup(top, k)
}

/// The nested sections the normalizer touches carry no duplicate keys.
pub open spec fn sections_unique(top: Seq<(String, ConfigValue)>) -> bool {
    &&& (lookup(top, "log"@) matches Some(ConfigValue::Obj(lm)) ==> keys_unique(lm@))
    &&& (lookup(top, "experimental"@) matches Some(ConfigValue::Obj(ex)) ==> keys_unique(ex@))
    &&& (clash_api_of(top) matches Some(ca) ==> keys_unique(ca))
}

/// No two entries share a key, decided pair by pair.
fn entries_unique(es: &Vec<(String, ConfigValue)>) -> (r: bool)
    ensures
        r == keys_unique(es@),
{
    let n = es.len();
    let mut i: usize = 0;
    while i < n
        invariant
            0 <= i <= n,
            n == es@.len(),
            forall|a: int, b: int|
                0 <= a < b < es@.len() && a < i ==> (#[trigger] es@[a]).0@ != (
                #[trigger] es@[b]).0@,
        decreases n - i,
    {
        let mut j: usize = i + 1;
        while j < n
            invariant
                0 <= i < j <= n,
                n == es@.len(),
                forall|b: int| i < b < j ==> es@[i as int].0@ != (#[trigger] es@[b]).0@,
            decreases n - j,
        {
            if crate::text::str_eq(es[i].0.as_str(), es[j].0.as_str()) {
                assert(es@[i as int].0@ == es@[j as int].0@);
                assert(!keys_unique(es@));
                return false;
            }
            j = j + 1;
        }
        i = i + 1;
    }
    true
}

/// Decide whether a document can be normalized: an object whose top
/// level and whose touched sections carry no duplicate keys.
pub fn normalize_ready(doc: &ConfigValue) -> (r: bool)
    ensures
        r == (*doc is Obj && keys_unique(obj_entries(*doc)) && sections_unique(
            obj_entries(*doc),
        )),
{
    match doc {
        ConfigValue::Obj(es) => {
            if !entries_unique(es) {
                return false;
            }
            let log_ok = match obj_get(es, "log") {
                Some(ConfigValue::Obj(lm)) => entries_unique(lm),
                _ => true,
            };
            if !log_ok {
                return false;
            }
            match obj_get(es, "experimental") {
                Some(ConfigValue::Obj(ex)) => {
                    if !entries_unique(ex) {
                        return false;
                    }
                    match obj_get(ex, "clash_api") {
                        Some(ConfigValue::Obj(ca)) => entries_unique(ca),
                        _ => true,
                    }
                },
                _ => true,
            }
        },
        _ => false,
    }
}

/// The well-known keys the normalizer touches within one object are
/// pairwise distinct.
proof fn lemma_distinct_keys()
    ensures
        "log"@ != "experimental"@,
        "disabled"@ != "output"@,
        "disabled"@ != "timestamp"@,
        "output"@ != "timestamp"@,
        "external_controller"@ != "secret"@,
{
    reveal_strlit("log");
    reveal_strlit("experimental");
    reveal_strlit("disabled");
    reveal_strlit("output");
    reveal_strlit("timestamp");
    reveal_strlit("external_controller");
    reveal_strlit("secret");
    assert("log"@.len() == 3);
    assert("experimental"@.len() == 12);
    assert("disabled"@.len() == 8);
    assert("output"@.len() == 6);
    assert("timestamp"@.len() == 9);
    assert("external_controller"@.len() == 19);
    assert("secret"@.len() == 6);
}

/// Ensure a control-plane section has a listen address, and a secret when
/// `init_secret` is set; report both.
fn init_clash_api(ca: &mut Vec<(String, ConfigValue)>, init_secret: bool, fresh: String) -> (r: (
    String,
    Option<String>,
))
    requires
        keys_unique(old(ca)@),
    ensures
        keys_unique(final(ca)@),
        r.0@ == (match as_str_opt(lookup(old(ca)@, "external_controller"@)) {
            Some(s) => s,
            None => default_listen(),
        }),
        as_str_opt(lookup(final(ca)@, "external_controller"@)) == Some(r.0@),
        as_str_opt(lookup(old(ca)@, "external_controller"@)) is Some ==> lookup(
            final(ca)@,
            "external_controller"@,
        ) == lookup(old(ca)@, "external_controller"@),
        as_str_opt(lookup(old(ca)@, "secret"@)) matches Some(s) ==> (r.1 matches Some(x) && x@
            == s) && lookup(final(ca)@, "secret"@) == lookup(old(ca)@, "secret"@),
        as_str_opt(lookup(old(ca)@, "secret"@)) is None && init_secret ==> r.1 == Some(fresh)
            && lookup(final(ca)@, "secret"@) == Some(ConfigValue::Str(fresh)),
        as_str_opt(lookup(old(ca)@, "secret"@)) is None && !init_secret ==> r.1 is None
            && lookup(final(ca)@, "secret"@) == lookup(old(ca)@, "secret"@),
        forall|k: Seq<char>|
            k != "external_controller"@ && k != "secret"@ ==> lookup(final(ca)@, k) == lookup(
                old(ca)@,
                k,
            ),
{
    proof {
        lemma_distinct_keys();
    }
    let mut listen_found: Option<String> = None;
    match obj_get(ca, "external_controller") {
        Some(ConfigValue::Str(s)) => {
            listen_found = Some(s.clone());
        },
        _ => {},
    }
    let listen: String = match listen_found {
        Some(l) => l,
        None => {
            obj_set(
                ca,
                String::from_str("external_controller"),
                ConfigValue::Str(String::from_str("127.0.0.1:9090")),
            );
            String::from_str("127.0.0.1:9090")
        },
    };
    let mut secret_found: Option<String> = None;
    match obj_get(ca, "secret") {
        Some(ConfigValue::Str(s)) => {
            secret_found = Some(s.clone());
        },
        _ => {},
    }
    let secret: Option<String> = match secret_found {
        Some(s) => Some(s),
        None => {
            if init_secret {
                let stored = fresh.clone();
                obj_set(ca, String::from_str("secret"), ConfigValue::Str(stored));
                Some(fresh)
            } else {
                None
            }
        },
    };
    (listen, secret)
}

/// Normalize a configuration document before it is streamed to the core
/// process, and report the resolved control-plane listen address and
/// secret.
pub fn normalize_config(doc: ConfigValue, fresh_secret: String) -> (r: (
    ConfigValue,
    String,
    Option<String>,
))
    requires
        doc is Obj,
        keys_unique(obj_entries(doc)),
        sections_unique(obj_entries(doc)),
    ensures
        r.0 matches ConfigValue::Obj(es2) && normalize_post(
            obj_entries(doc),
            fresh_secret,
            es2@,
        ),
        r.1@ == normalized_listen(obj_entries(doc)),
        (match r.2 {
            Some(s) => normalized_secret(obj_entries(doc), fresh_secret@) == Some(s@),
            None => normalized_secret(obj_entries(doc), fresh_secret@) is None,
        }),
{
    proof {
        lemma_distinct_keys();
    }
    let ghost top0 = obj_entries(doc);
    let mut top: Vec<(String, ConfigValue)> = match doc {
        ConfigValue::Obj(es) => es,
        _ => {
            proof {
                assert(false);
            }
            Vec::new()
        },
    };
    let log_taken = obj_take(&mut top, "log");
    match log_taken {
        Some(ConfigValue::Obj(mut lm)) => {
            let ghost lm0 = lm@;
            let _dropped = obj_take(&mut lm, "disabled");
            obj_set(&mut lm, String::from_str("output"), ConfigValue::Str(String::from_str("stdout")));
            obj_set(&mut lm, String::from_str("timestamp"), ConfigValue::Bool(false));
            obj_set(&mut top, String::from_str("log"), ConfigValue::Obj(lm));
        },
        Some(other) => {
            obj_set(&mut top, String::from_str("log"), other);
        },
        None => {},
    }
    let ex_taken = obj_take(&mut top, "experimental");
    let listen: String;
    let secret: Option<String>;
    match ex_taken {
        Some(ConfigValue::Obj(mut ex)) => {
            let ca_taken = obj_take(&mut ex, "clash_api");
            match ca_taken {
                Some(ConfigValue::Obj(mut ca)) => {
                    let r0 = init_clash_api(&mut ca, false, fresh_secret);
                    listen = r0.0;
                    secret = r0.1;
                    obj_set(&mut ex, String::from_str("clash_api"), ConfigValue::Obj(ca));
                },
                _ => {
                    let mut ca: Vec<(String, ConfigValue)> = Vec::new();
                    let r0 = init_clash_api(&mut ca, true, fresh_secret);
                    listen = r0.0;
                    secret = r0.1;
                    obj_set(&mut ex, String::from_str("clash_api"), ConfigValue::Obj(ca));
                },
            }
            obj_set(&mut top, String::from_str("experimental"), ConfigValue::Obj(ex));
        },
        _ => {
            let mut ca: Vec<(String, ConfigValue)> = Vec::new();
            let r0 = init_clash_api(&mut ca, true, fresh_secret);
            listen = r0.0;
            secret = r0.1;
            let mut ex: Vec<(String, ConfigValue)> = Vec::new();
            obj_set(&mut ex, String::from_str("clash_api"), ConfigValue::Obj(ca));
            obj_set(&mut top, String::from_str("experimental"), ConfigValue::Obj(ex));
        },
    }
    (ConfigValue::Obj(top), listen, secret)
}

} // verus!
