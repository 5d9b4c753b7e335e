//! Languages by their two-letter codes.
use crate::text::owned;
use vstd::prelude::*;

verus! {

/// A language, by its ISO 639-1 code.
#[derive(Debug, Clone, Copy, PartialEq, Eq, Structural, Hash)]
pub enum Iso639_1 {
    /// Afar: `aa`
    Aa,
    /// Abkhazian: `ab`
    Ab,
    /// Avestan: `ae`
    Ae,
    /// Afrikaans: `af`
    Af,
    /// Akan: `ak`
    Ak,
    /// Amharic: `am`
    Am,
    /// Aragonese: `an`
    An,
    /// Arabic: `ar`
    Ar,
    /// Assamese: `as`
    As,
    /// Avaric: `av`
    Av,
    /// Aymara: `ay`
    Ay,
    /// Azerbaijani: `az`
    Az,
    /// Bashkir: `ba`
    Ba,
    /// Belarusian: `be`
    Be,
    /// Bulgarian: `bg`
    Bg,
    /// Bihari languages: `bh`
    Bh,
    /// Bislama: `bi`
    Bi,
    /// Bambara: `bm`
    Bm,
    /// Bengali: `bn`
    Bn,
    /// Tibetan: `bo`
    Bo,
    /// Breton: `br`
    Br,
    /// Bosnian: `bs`
    Bs,
    /// Catalan; Valencian: `ca`
    Ca,
    /// Chechen: `ce`
    Ce,
    /// Chamorro: `ch`
    Ch,
    /// Corsican: `co`
    Co,
    /// Cree: `cr`
    Cr,
    /// Czech: `cs`
    Cs,
    /// Church Slavic; Old Slavonic; Church Slavonic; Old Bulgarian; Old Church Slavonic: `cu`
    Cu,
    /// Chuvash: `cv`
    Cv,
    /// Welsh: `cy`
    Cy,
    /// Danish: `da`
    Da,
    /// German: `de`
    De,
    /// Divehi; Dhivehi; Maldivian: `dv`
    Dv,
    /// Dzongkha: `dz`
    Dz,
    /// Greek, Modern (1453-): `el`
    El,
    /// English: `en`
    En,
    /// Esperanto: `eo`
    Eo,
    /// Spanish; Castilian: `es`
    Es,
    /// Estonian: `et`
    Et,
    /// Basque: `eu`
    Eu,
    /// Persian: `fa`
    Fa,
    /// Fulah: `ff`
    Ff,
    /// Finnish: `fi`
    Fi,
    /// Fijian: `fj`
    Fj,
    /// Faroese: `fo`
    Fo,
    /// French: `fr`
    Fr,
    /// Western Frisian: `fy`
    Fy,
    /// Irish: `ga`
    Ga,
    /// Gaelic; Scottish Gaelic: `gd`
    Gd,
    /// Galician: `gl`
    Gl,
    /// Guarani: `gn`
    Gn,
    /// Gujarati: `gu`
    Gu,
    /// Manx: `hv`
    Hv,
    /// Hausa: `ha`
    Ha,
    /// Hebrew: `he`
    He,
    /// Hindi: `hi`
    Hi,
    /// Hiri Motu: `ho`
    Ho,
    /// Croatian: `hr`
    Hr,
    /// Haitian; Haitian Creole: `ht`
    Ht,
    /// Hungarian: `hu`
    Hu,
    /// Armenian: `hy`
    Hy,
    /// Interlingua (International Auxiliary Language Association): `ia`
    Ia,
    /// Indonesian: `id`
    Id,
    /// Interlingue; Occidental: `ie`
    Ie,
    /// Igbo: `ig`
    Ig,
    /// Sichuan Yi; Nuosu: `ii`
    Ii,
    /// Inupiaq: `ik`
    Ik,
    /// Ido: `io`
    Io,
    /// Icelandic: `is`
    Is,
    /// Italian: `it`
    It,
    /// Inuktitut: `iu`
    Iu,
    /// Japanese: `ja`
    Ja,
    /// Javanese: `jv`
    Jv,
    /// Georgian: `ka`
    Ka,
    /// Kongo: `kg`
    Kg,
    /// Kikuyu; Gikuyu: `ki`
    Ki,
    /// Kuanyama; Kwanyama: `kj`
    Kj,
    /// Kazakh: `kk`
    Kk,
    /// Kalaallisut; Greenlandic: `kl`
    Kl,
    /// Central Khmer: `km`
    Km,
    /// Kannada: `kn`
    Kn,
    /// Korean: `ko`
    Ko,
    /// Kanuri: `kr`
    Kr,
    /// Kashmiri: `ks`
    Ks,
    /// Kurdish: `ku`
    Ku,
    /// Komi: `kv`
    Kv,
    /// Cornish: `kw`
    Kw,
    /// Kirghiz; Kyrgyz: `ky`
    Ky,
    /// Latin: `la`
    La,
    /// Luxembourgish; Letzeburgesch: `lb`
    Lb,
    /// Ganda: `lg`
    Lg,
    /// Limburgan; Limburger; Limburgish: `li`
    Li,
    /// Lingala: `ln`
    Ln,
    /// Lao: `lo`
    Lo,
    /// Lithuanian: `lt`
    Lt,
    /// Luba-Katanga: `lu`
    Lu,
    /// Latvian: `lv`
    Lv,
    /// Malagasy: `mg`
    Mg,
    /// Marshallese: `mh`
    Mh,
    /// Maori: `mi`
    Mi,
    /// Macedonian: `mk`
    Mk,
    /// Malayalam: `ml`
    Ml,
    /// Mongolian: `mn`
    Mn,
    /// Marathi: `mr`
    Mr,
    /// Malay: `ms`
    Ms,
    /// Maltese: `mt`
    Mt,
    /// Burmese: `my`
    My,
    /// Nauru: `na`
    Na,
    /// Bokmål, Norwegian; Norwegian Bokmål: `nb`
    Nb,
    /// Ndebele, North; North Ndebele: `nd`
    Nd,
    /// Nepali: `ne`
    Ne,
    /// Ndonga: `ng`
    Ng,
    /// Dutch; Flemish: `nl`
    Nl,
    /// Norwegian Nynorsk; Nynorsk, Norwegian: `nn`
    Nn,
    /// Norwegian: `no`
    No,
    /// Ndebele, South; South Ndebele: `nr`
    Nr,
    /// Navajo; Navaho: `nv`
    Nv,
    /// Chichewa; Chewa; Nyanja: `ny`
    Ny,
    /// Occitan (post 1500): `oc`
    Oc,
    /// Ojibwa: `oj`
    Oj,
    /// Oromo: `om`
    Om,
    /// Oriya: `or`
    Or,
    /// Ossetian; Ossetic: `os`
    Os,
    /// Panjabi; Punjabi: `pa`
    Pa,
    /// Pali: `pi`
    Pi,
    /// Polish: `pl`
    Pl,
    /// Pushto; Pashto: `ps`
    Ps,
    /// Portuguese: `pt`
    Pt,
    /// Quechua: `qu`
    Qu,
    /// Romansh: `rm`
    Rm,
    /// Rundi: `rn`
    Rn,
    /// Romanian; Moldavian; Moldovan: `ro`
    Ro,
    /// Russian: `ru`
    Ru,
    /// Kinyarwanda: `rw`
    Rw,
    /// Sanskrit: `sa`
    Sa,
    /// Sardinian: `sc`
    Sc,
    /// Sindhi: `sd`
    Sd,
    /// Northern Sami: `se`
    Se,
    /// Sango: `sg`
    Sg,
    /// Sinhala; Sinhalese: `si`
    Si,
    /// Slovak: `sk`
    Sk,
    /// Slovenian: `sl`
    Sl,
    /// Samoan: `sm`
    Sm,
    /// Shona: `sn`
    Sn,
    /// Somali: `so`
    So,
    /// Albanian: `sq`
    Sq,
    /// Serbian: `sr`
    Sr,
    /// Swati: `ss`
    Ss,
    /// Sotho, Southern: `st`
    St,
    /// Sundanese: `su`
    Su,
    /// Swedish: `sv`
    Sv,
    /// Swahili: `sw`
    Sw,
    /// Tamil: `ta`
    Ta,
    /// Telugu: `te`
    Te,
    /// Tajik: `tg`
    Tg,
    /// Thai: `th`
    Th,
    /// Tigrinya: `ti`
    Ti,
    /// Turkmen: `tk`
    Tk,
    /// Tagalog: `tl`
    Tl,
    /// Tswana: `tn`
    Tn,
    /// Tonga (Tonga Islands): `to`
    To,
    /// Turkish: `tr`
    Tr,
    /// Tsonga: `ts`
    Ts,
    /// Tatar: `tt`
    Tt,
    /// Twi: `tw`
    Tw,
    /// Uighur; Uyghur: `ug`
    Ug,
    /// Ukrainian: `uk`
    Uk,
    /// Urdu: `ur`
    Ur,
    /// Uzbek: `uz`
    Uz,
    /// Venda: `ve`
    Ve,
    /// Vietnamese: `vi`
    Vi,
    /// Volapük: `vo`
    Vo,
    /// Walloon: `wa`
    Wa,
    /// Wolof: `wo`
    Wo,
    /// Xhosa: `xh`
    Xh,
    /// Yiddish: `yi`
    Yi,
    /// Yoruba: `yo`
    Yo,
    /// Zhuang; Chuang: `za`
    Za,
    /// Chinese: `zh`
    Zh,
    /// Zulu: `zu`
    Zu,
}

impl Iso639_1 {
    /// The text that stands for this value on the wire.
    pub open spec fn text(self) -> Seq<char> {
        match self {
            Iso639_1::Aa => "aa"@,
            Iso639_1::Ab => "ab"@,
            Iso639_1::Ae => "ae"@,
            Iso639_1::Af => "af"@,
            Iso639_1::Ak => "ak"@,
            Iso639_1::Am => "am"@,
            Iso639_1::An => "an"@,
            Iso639_1::Ar => "ar"@,
            Iso639_1::As => "as"@,
            Iso639_1::Av => "av"@,
            Iso639_1::Ay => "ay"@,
            Iso639_1::Az => "az"@,
            Iso639_1::Ba => "ba"@,
            Iso639_1::Be => "be"@,
            Iso639_1::Bg => "bg"@,
            Iso639_1::Bh => "bh"@,
            Iso639_1::Bi => "bi"@,
            Iso639_1::Bm => "bm"@,
            Iso639_1::Bn => "bn"@,
            Iso639_1::Bo => "bo"@,
            Iso639_1::Br => "br"@,
            Iso639_1::Bs => "bs"@,
            Iso639_1::Ca => "ca"@,
            Iso639_1::Ce => "ce"@,
            Iso639_1::Ch => "ch"@,
            Iso639_1::Co => "co"@,
            Iso639_1::Cr => "cr"@,
            Iso639_1::Cs => "cs"@,
            Iso639_1::Cu => "cu"@,
            Iso639_1::Cv => "cv"@,
            Iso639_1::Cy => "cy"@,
            Iso639_1::Da => "da"@,
            Iso639_1::De => "de"@,
            Iso639_1::Dv => "dv"@,
            Iso639_1::Dz => "dz"@,
            Iso639_1::El => "el"@,
            Iso639_1::En => "en"@,
            Iso639_1::Eo => "eo"@,
            Iso639_1::Es => "es"@,
            Iso639_1::Et => "et"@,
            Iso639_1::Eu => "eu"@,
            Iso639_1::Fa => "fa"@,
            Iso639_1::Ff => "ff"@,
            Iso639_1::Fi => "fi"@,
            Iso639_1::Fj => "fj"@,
            Iso639_1::Fo => "fo"@,
            Iso639_1::Fr => "fr"@,
            Iso639_1::Fy => "fy"@,
            Iso639_1::Ga => "ga"@,
            Iso639_1::Gd => "gd"@,
            Iso639_1::Gl => "gl"@,
            Iso639_1::Gn => "gn"@,
            Iso639_1::Gu => "gu"@,
            Iso639_1::Hv => "hv"@,
            Iso639_1::Ha => "ha"@,
            Iso639_1::He => "he"@,
            Iso639_1::Hi => "hi"@,
            Iso639_1::Ho => "ho"@,
            Iso639_1::Hr => "hr"@,
            Iso639_1::Ht => "ht"@,
            Iso639_1::Hu => "hu"@,
            Iso639_1::Hy => "hy"@,
            Iso639_1::Ia => "ia"@,
            Iso639_1::Id => "id"@,
            Iso639_1::Ie => "ie"@,
            Iso639_1::Ig => "ig"@,
            Iso639_1::Ii => "ii"@,
            Iso639_1::Ik => "ik"@,
            Iso639_1::Io => "io"@,
            Iso639_1::Is => "is"@,
            Iso639_1::It => "it"@,
            Iso639_1::Iu => "iu"@,
            Iso639_1::Ja => "ja"@,
            Iso639_1::Jv => "jv"@,
            Iso639_1::Ka => "ka"@,
            Iso639_1::Kg => "kg"@,
            Iso639_1::Ki => "ki"@,
            Iso639_1::Kj => "kj"@,
            Iso639_1::Kk => "kk"@,
            Iso639_1::Kl => "kl"@,
            Iso639_1::Km => "km"@,
            Iso639_1::Kn => "kn"@,
            Iso639_1::Ko => "ko"@,
            Iso639_1::Kr => "kr"@,
            Iso639_1::Ks => "ks"@,
            Iso639_1::Ku => "ku"@,
            Iso639_1::Kv => "kv"@,
            Iso639_1::Kw => "kw"@,
            Iso639_1::Ky => "ky"@,
            Iso639_1::La => "la"@,
            Iso639_1::Lb => "lb"@,
            Iso639_1::Lg => "lg"@,
            Iso639_1::Li => "li"@,
            Iso639_1::Ln => "ln"@,
            Iso639_1::Lo => "lo"@,
            Iso639_1::Lt => "lt"@,
            Iso639_1::Lu => "lu"@,
            Iso639_1::Lv => "lv"@,
            Iso639_1::Mg => "mg"@,
            Iso639_1::Mh => "mh"@,
            Iso639_1::Mi => "mi"@,
            Iso639_1::Mk => "mk"@,
            Iso639_1::Ml => "ml"@,
            Iso639_1::Mn => "mn"@,
            Iso639_1::Mr => "mr"@,
            Iso639_1::Ms => "ms"@,
            Iso639_1::Mt => "mt"@,
            Iso639_1::My => "my"@,
            Iso639_1::Na => "na"@,
            Iso639_1::Nb => "nb"@,
            Iso639_1::Nd => "nd"@,
            Iso639_1::Ne => "ne"@,
            Iso639_1::Ng => "ng"@,
            Iso639_1::Nl => "nl"@,
            Iso639_1::Nn => "nn"@,
            Iso639_1::No => "no"@,
            Iso639_1::Nr => "nr"@,
            Iso639_1::Nv => "nv"@,
            Iso639_1::Ny => "ny"@,
            Iso639_1::Oc => "oc"@,
            Iso639_1::Oj => "oj"@,
            Iso639_1::Om => "om"@,
            Iso639_1::Or => "or"@,
            Iso639_1::Os => "os"@,
            Iso639_1::Pa => "pa"@,
            Iso639_1::Pi => "pi"@,
            Iso639_1::Pl => "pl"@,
            Iso639_1::Ps => "ps"@,
            Iso639_1::Pt => "pt"@,
            Iso639_1::Qu => "qu"@,
            Iso639_1::Rm => "rm"@,
            Iso639_1::Rn => "rn"@,
            Iso639_1::Ro => "ro"@,
            Iso639_1::Ru => "ru"@,
            Iso639_1::Rw => "rw"@,
            Iso639_1::Sa => "sa"@,
            Iso639_1::Sc => "sc"@,
            Iso639_1::Sd => "sd"@,
            Iso639_1::Se => "se"@,
            Iso639_1::Sg => "sg"@,
            Iso639_1::Si => "si"@,
            Iso639_1::Sk => "sk"@,
            Iso639_1::Sl => "sl"@,
            Iso639_1::Sm => "sm"@,
            Iso639_1::Sn => "sn"@,
            Iso639_1::So => "so"@,
            Iso639_1::Sq => "sq"@,
            Iso639_1::Sr => "sr"@,
            Iso639_1::Ss => "ss"@,
            Iso639_1::St => "st"@,
            Iso639_1::Su => "su"@,
            Iso639_1::Sv => "sv"@,
            Iso639_1::Sw => "sw"@,
            Iso639_1::Ta => "ta"@,
            Iso639_1::Te => "te"@,
            Iso639_1::Tg => "tg"@,
            Iso639_1::Th => "th"@,
            Iso639_1::Ti => "ti"@,
            Iso639_1::Tk => "tk"@,
            Iso639_1::Tl => "tl"@,
            Iso639_1::Tn => "tn"@,
            Iso639_1::To => "to"@,
            Iso639_1::Tr => "tr"@,
            Iso639_1::Ts => "ts"@,
            Iso639_1::Tt => "tt"@,
            Iso639_1::Tw => "tw"@,
            Iso639_1::Ug => "ug"@,
            Iso639_1::Uk => "uk"@,
            Iso639_1::Ur => "ur"@,
            Iso639_1::Uz => "uz"@,
            Iso639_1::Ve => "ve"@,
            Iso639_1::Vi => "vi"@,
            Iso639_1::Vo => "vo"@,
            Iso639_1::Wa => "wa"@,
            Iso639_1::Wo => "wo"@,
            Iso639_1::Xh => "xh"@,
            Iso639_1::Yi => "yi"@,
            Iso639_1::Yo => "yo"@,
            Iso639_1::Za => "za"@,
            Iso639_1::Zh => "zh"@,
            Iso639_1::Zu => "zu"@,
        }
    }

    /// The text that stands for this value on the wire.
    pub fn to_string(&self) -> (r: String)
        ensures
            r@ == self.text(),
    {
        match self {
            Iso639_1::Aa => owned("aa"),
            Iso639_1::Ab => owned("ab"),
            Iso639_1::Ae => owned("ae"),
            Iso639_1::Af => owned("af"),
            Iso639_1::Ak => owned("ak"),
            Iso639_1::Am => owned("am"),
            Iso639_1::An => owned("an"),
            Iso639_1::Ar => owned("ar"),
            Iso639_1::As => owned("as"),
            Iso639_1::Av => owned("av"),
            Iso639_1::Ay => owned("ay"),
            Iso639_1::Az => owned("az"),
            Iso639_1::Ba => owned("ba"),
            Iso639_1::Be => owned("be"),
            Iso639_1::Bg => owned("bg"),
            Iso639_1::Bh => owned("bh"),
            Iso639_1::Bi => owned("bi"),
            Iso639_1::Bm => owned("bm"),
            Iso639_1::Bn => owned("bn"),
            Iso639_1::Bo => owned("bo"),
            Iso639_1::Br => owned("br"),
            Iso639_1::Bs => owned("bs"),
            Iso639_1::Ca => owned("ca"),
            Iso639_1::Ce => owned("ce"),
            Iso639_1::Ch => owned("ch"),
            Iso639_1::Co => owned("co"),
            Iso639_1::Cr => owned("cr"),
            Iso639_1::Cs => owned("cs"),
            Iso639_1::Cu => owned("cu"),
            Iso639_1::Cv => owned("cv"),
            Iso639_1::Cy => owned("cy"),
            Iso639_1::Da => owned("da"),
            Iso639_1::De => owned("de"),
            Iso639_1::Dv => owned("dv"),
            Iso639_1::Dz => owned("dz"),
            Iso639_1::El => owned("el"),
            Iso639_1::En => owned("en"),
            Iso639_1::Eo => owned("eo"),
            Iso639_1::Es => owned("es"),
            Iso639_1::Et => owned("et"),
            Iso639_1::Eu => owned("eu"),
            Iso639_1::Fa => owned("fa"),
            Iso639_1::Ff => owned("ff"),
            Iso639_1::Fi => owned("fi"),
            Iso639_1::Fj => owned("fj"),
            Iso639_1::Fo => owned("fo"),
            Iso639_1::Fr => owned("fr"),
            Iso639_1::Fy => owned("fy"),
            Iso639_1::Ga => owned("ga"),
            Iso639_1::Gd => owned("gd"),
            Iso639_1::Gl => owned("gl"),
            Iso639_1::Gn => owned("gn"),
            Iso639_1::Gu => owned("gu"),
            Iso639_1::Hv => owned("hv"),
            Iso639_1::Ha => owned("ha"),
            Iso639_1::He => owned("he"),
            Iso639_1::Hi => owned("hi"),
            Iso639_1::Ho => owned("ho"),
            Iso639_1::Hr => owned("hr"),
            Iso639_1::Ht => owned("ht"),
            Iso639_1::Hu => owned("hu"),
            Iso639_1::Hy => owned("hy"),
            Iso639_1::Ia => owned("ia"),
            Iso639_1::Id => owned("id"),
            Iso639_1::Ie => owned("ie"),
            Iso639_1::Ig => owned("ig"),
            Iso639_1::Ii => owned("ii"),
            Iso639_1::Ik => owned("ik"),
            Iso639_1::Io => owned("io"),
            Iso639_1::Is => owned("is"),
            Iso639_1::It => owned("it"),
            Iso639_1::Iu => owned("iu"),
            Iso639_1::Ja => owned("ja"),
            Iso639_1::Jv => owned("jv"),
            Iso639_1::Ka => owned("ka"),
            Iso639_1::Kg => owned("kg"),
            Iso639_1::Ki => owned("ki"),
            Iso639_1::Kj => owned("kj"),
            Iso639_1::Kk => owned("kk"),
            Iso639_1::Kl => owned("kl"),
            Iso639_1::Km => owned("km"),
            Iso639_1::Kn => owned("kn"),
            Iso639_1::Ko => owned("ko"),
            Iso639_1::Kr => owned("kr"),
            Iso639_1::Ks => owned("ks"),
            Iso639_1::Ku => owned("ku"),
            Iso639_1::Kv => owned("kv"),
            Iso639_1::Kw => owned("kw"),
            Iso639_1::Ky => owned("ky"),
            Iso639_1::La => owned("la"),
            Iso639_1::Lb => owned("lb"),
            Iso639_1::Lg => owned("lg"),
            Iso639_1::Li => owned("li"),
            Iso639_1::Ln => owned("ln"),
            Iso639_1::Lo => owned("lo"),
            Iso639_1::Lt => owned("lt"),
            Iso639_1::Lu => owned("lu"),
            Iso639_1::Lv => owned("lv"),
            Iso639_1::Mg => owned("mg"),
            Iso639_1::Mh => owned("mh"),
            Iso639_1::Mi => owned("mi"),
            Iso639_1::Mk => owned("mk"),
            Iso639_1::Ml => owned("ml"),
            Iso639_1::Mn => owned("mn"),
            Iso639_1::Mr => owned("mr"),
            Iso639_1::Ms => owned("ms"),
            Iso639_1::Mt => owned("mt"),
            Iso639_1::My => owned("my"),
            Iso639_1::Na => owned("na"),
            Iso639_1::Nb => owned("nb"),
            Iso639_1::Nd => owned("nd"),
            Iso639_1::Ne => owned("ne"),
            Iso639_1::Ng => owned("ng"),
            Iso639_1::Nl => owned("nl"),
            Iso639_1::Nn => owned("nn"),
            Iso639_1::No => owned("no"),
            Iso639_1::Nr => owned("nr"),
            Iso639_1::Nv => owned("nv"),
            Iso639_1::Ny => owned("ny"),
            Iso639_1::Oc => owned("oc"),
            Iso639_1::Oj => owned("oj"),
            Iso639_1::Om => owned("om"),
            Iso639_1::Or => owned("or"),
            Iso639_1::Os => owned("os"),
            Iso639_1::Pa => owned("pa"),
            Iso639_1::Pi => owned("pi"),
            Iso639_1::Pl => owned("pl"),
            Iso639_1::Ps => owned("ps"),
            Iso639_1::Pt => owned("pt"),
            Iso639_1::Qu => owned("qu"),
            Iso639_1::Rm => owned("rm"),
            Iso639_1::Rn => owned("rn"),
            Iso639_1::Ro => owned("ro"),
            Iso639_1::Ru => owned("ru"),
            Iso639_1::Rw => owned("rw"),
            Iso639_1::Sa => owned("sa"),
            Iso639_1::Sc => owned("sc"),
            Iso639_1::Sd => owned("sd"),
            Iso639_1::Se => owned("se"),
            Iso639_1::Sg => owned("sg"),
            Iso639_1::Si => owned("si"),
            Iso639_1::Sk => owned("sk"),
            Iso639_1::Sl => owned("sl"),
            Iso639_1::Sm => owned("sm"),
            Iso639_1::Sn => owned("sn"),
            Iso639_1::So => owned("so"),
            Iso639_1::Sq => owned("sq"),
            Iso639_1::Sr => owned("sr"),
            Iso639_1::Ss => owned("ss"),
            Iso639_1::St => owned("st"),
            Iso639_1::Su => owned("su"),
            Iso639_1::Sv => owned("sv"),
            Iso639_1::Sw => owned("sw"),
            Iso639_1::Ta => owned("ta"),
            Iso639_1::Te => owned("te"),
            Iso639_1::Tg => owned("tg"),
            Iso639_1::Th => owned("th"),
            Iso639_1::Ti => owned("ti"),
            Iso639_1::Tk => owned("tk"),
            Iso639_1::Tl => owned("tl"),
            Iso639_1::Tn => owned("tn"),
            Iso639_1::To => owned("to"),
            Iso639_1::Tr => owned("tr"),
            Iso639_1::Ts => owned("ts"),
            Iso639_1::Tt => owned("tt"),
            Iso639_1::Tw => owned("tw"),
            Iso639_1::Ug => owned("ug"),
            Iso639_1::Uk => owned("uk"),
            Iso639_1::Ur => owned("ur"),
            Iso639_1::Uz => owned("uz"),
            Iso639_1::Ve => owned("ve"),
            Iso639_1::Vi => owned("vi"),
            Iso639_1::Vo => owned("vo"),
            Iso639_1::Wa => owned("wa"),
            Iso639_1::Wo => owned("wo"),
            Iso639_1::Xh => owned("xh"),
            Iso639_1::Yi => owned("yi"),
            Iso639_1::Yo => owned("yo"),
            Iso639_1::Za => owned("za"),
            Iso639_1::Zh => owned("zh"),
            Iso639_1::Zu => owned("zu"),
        }
    }
}

impl Default for Iso639_1 {
    fn default() -> (r: Self)
        ensures
            r == Iso639_1::En,
    {
        Iso639_1::En
    }
}

} // verus!
