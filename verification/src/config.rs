//! Collecting named configuration values from a captured environment.

use vstd::prelude::*;
use vstd::string::StringExecFns;

use crate::command::lemma_vec_push_deep_view;
use crate::text;

verus! {

broadcast use vstd::seq::group_seq_axioms;

/// A set of configuration keys and the values a lookup found for them.
#[derive(Debug)]
pub struct Config {
    pub keys: Vec<(String, Option<String>)>,
}

impl View for Config {
    type V = Seq<(Seq<char>, Option<Seq<char>>)>;

    open spec fn view(&self) -> Seq<(Seq<char>, Option<Seq<char>>)> {
        self.keys.deep_view()
    }
}

/// The value recorded for the first entry named `name`, if any.
pub open spec fn spec_env_lookup(env: Seq<(Seq<char>, Seq<char>)>, name: Seq<char>) -> Option<
    Seq<char>,
>
    decreases env.len(),
{
    if env.len() == 0 {
        None
    } else if env[0].0 == name {
        Some(env[0].1)
    } else {
        spec_env_lookup(env.skip(1), name)
    }
}

/// The entries of `keys` that found a value, as pairs, in order.
pub open spec fn spec_build(keys: Seq<(Seq<char>, Option<Seq<char>>)>) -> Seq<
    (Seq<char>, Seq<char>),
>
    decreases keys.len(),
{
    if keys.len() == 0 {
        Seq::empty()
    } else {
        match keys[0].1 {
            Some(v) => seq![(keys[0].0, v)] + spec_build(keys.skip(1)),
            None => spec_build(keys.skip(1)),
        }
    }
}

impl Config {
    /// An empty configuration.
    pub fn new() -> (r: Config)
        ensures
            r@ =~= Seq::<(Seq<char>, Option<Seq<char>>)>::empty(),
    {
        Config { keys: Vec::new() }
    }

    /// Record `name` together with the value a lookup found for it.
    pub fn key(self, name: &str, value: Option<String>) -> (r: Config)
        ensures
            r@ == self@.push((name@, value.deep_view())),
    {
        let mut keys = self.keys;
        let e = (String::from_str(name), value);
        let ghost pre = keys;
        keys.push(e);
        proof {
            lemma_vec_push_deep_view(pre, keys, e);
        }
        Config { keys }
    }

    /// The keys that found a value, with those values.
    pub fn build(self) -> (r: Vec<(String, String)>)
        ensures
            r.deep_view() == spec_build(self@),
    {
        let ghost kv = self.keys.deep_view();
        let mut out: Vec<(String, String)> = Vec::new();
        let mut i: usize = 0;
        proof {
            assert(kv.skip(0) =~= kv);
            assert(out.deep_view() =~= Seq::<(Seq<char>, Seq<char>)>::empty());
        }
        while i < self.keys.len()
            invariant
                i <= self.keys.len(),
                kv == self.keys.deep_view(),
                out.deep_view() + spec_build(kv.skip(i as int)) =~= spec_build(kv),
            decreases self.keys.len() - i,
        {
            proof {
                assert(kv.skip(i as int)[0] == kv[i as int]);
                assert(kv.skip(i as int).skip(1) =~= kv.skip(i + 1));
                assert(kv[i as int] == self.keys@[i as int].deep_view());
            }
            let entry = &self.keys[i];
            match &entry.1 {
                Some(v) => {
                    let e = (entry.0.clone(), v.clone());
                    let ghost pre = out;
                    out.push(e);
                    proof {
                        lemma_vec_push_deep_view(pre, out, e);
                        assert(out.deep_view() + spec_build(kv.skip(i + 1)) =~= spec_build(kv));
                    }
                },
                None => {},
            }
            i += 1;
        }
        proof {
            assert(kv.skip(self.keys.len() as int).len() == 0);
            assert(out.deep_view() =~= spec_build(kv));
        }
        out
    }
}

/// Look `name` up in a captured environment.
pub fn env_get(env: &Vec<(String, String)>, name: &str) -> (r: Option<String>)
    ensures
        r.deep_view() == spec_env_lookup(env.deep_view(), name@),
{
    let ghost ev = env.deep_view();
    let mut i: usize = 0;
    proof {
        assert(ev.skip(0) =~= ev);
    }
    while i < env.len()
        invariant
            i <= env.len(),
            ev == env.deep_view(),
            spec_env_lookup(ev, name@) == spec_env_lookup(ev.skip(i as int), name@),
        decreases env.len() - i,
    {
        proof {
            assert(ev.skip(i as int)[0] == ev[i as int]);
            assert(ev.skip(i as int).skip(1) =~= ev.skip(i + 1));
            assert(ev[i as int] == env@[i as int].deep_view());
        }
        if text::str_eq(env[i].0.as_str(), name) {
            return Some(env[i].1.clone());
        }
        i += 1;
    }
    None
}

/// The configuration keys the installer collects from the environment.
pub open spec fn env_key_names() -> Seq<Seq<char>> {
    seq![
        "AWS_ACCESS_KEY_ID"@,
        "AWS_SECRET_ACCESS_KEY"@,
        "OPENAI_API_KEY"@,
        "ANTHROPIC_API_KEY"@,
        "MISTRAL_API_KEY"@,
        "HF_TOKEN"@,
        "HUGGINGFACE_HUB_TOKEN"@,
        "REPLICATE_API_KEY"@,
        "GEMINI_API_KEY"@,
        "GROQ_API_KEY"@,
        "PERPLEXITY_API_KEY"@,
        "ELEVEN_LABS_API_KEY"@,
        "FIREWORKS_API_KEY"@,
        "TAVILY_API_KEY"@,
        "SERPER_API_KEY"@,
        "NEO4J_URI"@,
        "NEO4J_USER"@,
        "NEO4J_PASSWORD"@,
        "QDRANT_HOST"@,
        "QDRANT_PORT"@,
        "SURREAL_HOST"@,
        "SURREAL_PORT"@,
        "SURREAL_USER"@,
        "SURREAL_PWD"@,
        "SURREAL_NS"@,
        "SURREAL_DB"@,
        "NGROK_AUTHTOKEN"@,
        "VULTR_API_KEY"@,
        "LIVEKIT_API_KEY"@,
        "LIVEKIT_API_SECRET"@,
        "BITWARDEN_API_KEY"@,
        "BITWARDEN_CLIENT_ID"@,
        "CLOUDINARY_API_KEY"@,
        "CLOUDINARY_API_SECRET"@,
        "TWILIO_ACCOUNT_SID"@,
        "TWILIO_AUTH_TOKEN"@,
        "SPOTIFY_CLIENT_ID"@,
        "SPOTIFY_CLIENT_SECRET"@,
    ]
}

/// Collect the installer's configuration keys from a captured environment:
/// each fixed key name paired with the first value the environment holds
/// for it, in the fixed order.
pub fn collect_env(env: &Vec<(String, String)>) -> (r: Config)
    ensures
        r@ == env_key_names().map_values(
            |n: Seq<char>| (n, spec_env_lookup(env.deep_view(), n)),
        ),
{
    let names: Vec<&str> = vec![
        "AWS_ACCESS_KEY_ID",
        "AWS_SECRET_ACCESS_KEY",
        "OPENAI_API_KEY",
        "ANTHROPIC_API_KEY",
        "MISTRAL_API_KEY",
        "HF_TOKEN",
        "HUGGINGFACE_HUB_TOKEN",
        "REPLICATE_API_KEY",
        "GEMINI_API_KEY",
        "GROQ_API_KEY",
        "PERPLEXITY_API_KEY",
        "ELEVEN_LABS_API_KEY",
        "FIREWORKS_API_KEY",
        "TAVILY_API_KEY",
        "SERPER_API_KEY",
        "NEO4J_URI",
        "NEO4J_USER",
        "NEO4J_PASSWORD",
        "QDRANT_HOST",
        "QDRANT_PORT",
        "SURREAL_HOST",
        "SURREAL_PORT",
        "SURREAL_USER",
        "SURREAL_PWD",
        "SURREAL_NS",
        "SURREAL_DB",
        "NGROK_AUTHTOKEN",
        "VULTR_API_KEY",
        "LIVEKIT_API_KEY",
        "LIVEKIT_API_SECRET",
        "BITWARDEN_API_KEY",
        "BITWARDEN_CLIENT_ID",
        "CLOUDINARY_API_KEY",
        "CLOUDINARY_API_SECRET",
        "TWILIO_ACCOUNT_SID",
        "TWILIO_AUTH_TOKEN",
        "SPOTIFY_CLIENT_ID",
        "SPOTIFY_CLIENT_SECRET",
    ];
    proof {
        assert(names.deep_view() =~= env_key_names());
    }
    let ghost target = env_key_names().map_values(
        |n: Seq<char>| (n, spec_env_lookup(env.deep_view(), n)),
    );
    let mut cfg = Config::new();
    let mut i: usize = 0;
    proof {
        assert(cfg@ =~= target.take(0));
    }
    while i < names.len()
        invariant
            i <= names.len(),
            names.deep_view() =~= env_key_names(),
            target == env_key_names().map_values(
                |n: Seq<char>| (n, spec_env_lookup(env.deep_view(), n)),
            ),
            cfg@ =~= target.take(i as int),
        decreases names.len() - i,
    {
        let value = env_get(env, names[i]);
        cfg = cfg.key(names[i], value);
        proof {
            assert(target[i as int] == (names.deep_view()[i as int], spec_env_lookup(
                env.deep_view(),
                names.deep_view()[i as int],
            )));
            assert(cfg@ =~= target.take(i + 1));
        }
        i += 1;
    }
    proof {
        assert(target.take(names.len() as int) =~= target);
    }
    cfg
}

} // verus!
