//! Canonical locale identifiers for the names of `*.lproj` directories.
//!
//! Aliases of one locale, such as `English`, `en` and `en_US`, all map to the
//! same identifier, `en_US`, so that a search names one field per locale.

use vstd::prelude::*;
use vstd::string::*;
use crate::text::{str_ends_with, str_eq};

verus! {

/// The alias table: a directory name (its `.lproj` suffix removed) and the
/// canonical `language_COUNTRY` identifier it stands for. ISO codes and
/// English language names map to the language's default country; a few
/// historical aliases are kept too: the misspelled code `no`, Apple's
/// outdated `sr_CS` for Serbia, and the script variants of Chinese.
pub open spec fn locale_aliases() -> Seq<(Seq<char>, Seq<char>)> {
    seq![
        ("aa"@, "aa_ET"@),
        ("af"@, "af_ZA"@),
        ("Afrikaans"@, "af_ZA"@),
        ("ak"@, "ak_GH"@),
        ("am"@, "am_ET"@),
        ("Amharic"@, "am_ET"@),
        ("an"@, "an_ES"@),
        ("ar"@, "ar_SA"@),
        ("Arabic"@, "ar_SA"@),
        ("as"@, "as_IN"@),
        ("Assamese"@, "as_IN"@),
        ("ay"@, "ay_PE"@),
        ("Aymara"@, "ay_PE"@),
        ("az"@, "az_AZ"@),
        ("Azerbaijani"@, "az_AZ"@),
        ("be"@, "be_BY"@),
        ("Byelorussian"@, "be_BY"@),
        ("bg"@, "bg_BG"@),
        ("Bulgarian"@, "bg_BG"@),
        ("bi"@, "bi_TV"@),
        ("bm"@, "bm_ML"@),
        ("bn"@, "bn_BD"@),
        ("Bengali"@, "bn_BD"@),
        ("bo"@, "bo_CN"@),
        ("Tibetan"@, "bo_CN"@),
        ("br"@, "br_FR"@),
        ("Breton"@, "br_FR"@),
        ("bs"@, "bs_BA"@),
        ("ca"@, "ca_ES"@),
        ("Catalan"@, "ca_ES"@),
        ("ce"@, "ce_RU"@),
        ("cs"@, "cs_CZ"@),
        ("Czech"@, "cs_CZ"@),
        ("cv"@, "cv_RU"@),
        ("cy"@, "cy_GB"@),
        ("Welsh"@, "cy_GB"@),
        ("da"@, "da_DK"@),
        ("Danish"@, "da_DK"@),
        ("de"@, "de_DE"@),
        ("German"@, "de_DE"@),
        ("dv"@, "dv_MV"@),
        ("dz"@, "dz_BT"@),
        ("Dzongkha"@, "dz_BT"@),
        ("el"@, "el_GR"@),
        ("Greek"@, "el_GR"@),
        ("en"@, "en_US"@),
        ("English"@, "en_US"@),
        ("eo"@, "eo_001"@),
        ("Esperanto"@, "eo_001"@),
        ("es"@, "es_ES"@),
        ("Spanish"@, "es_ES"@),
        ("et"@, "et_EE"@),
        ("Estonian"@, "et_EE"@),
        ("eu"@, "eu_ES"@),
        ("Basque"@, "eu_ES"@),
        ("fa"@, "fa_IR"@),
        ("Farsi"@, "fa_IR"@),
        ("ff"@, "ff_SN"@),
        ("fi"@, "fi_FI"@),
        ("Finnish"@, "fi_FI"@),
        ("fo"@, "fo_FO"@),
        ("Faroese"@, "fo_FO"@),
        ("fr"@, "fr_FR"@),
        ("French"@, "fr_FR"@),
        ("fy"@, "fy_DE"@),
        ("ga"@, "ga_IE"@),
        ("Irish"@, "ga_IE"@),
        ("gd"@, "gd_GB"@),
        ("Scottish"@, "gd_GB"@),
        ("gl"@, "gl_ES"@),
        ("Galician"@, "gl_ES"@),
        ("gn"@, "gn_PY"@),
        ("Guarani"@, "gn_PY"@),
        ("gu"@, "gu_IN"@),
        ("Gujarati"@, "gu_IN"@),
        ("gv"@, "gv_GB"@),
        ("Manx"@, "gv_GB"@),
        ("ha"@, "ha_NG"@),
        ("he"@, "he_IL"@),
        ("Hebrew"@, "he_IL"@),
        ("hi"@, "hi_IN"@),
        ("Hindi"@, "hi_IN"@),
        ("hr"@, "hr_HR"@),
        ("Croatian"@, "hr_HR"@),
        ("ht"@, "ht_HT"@),
        ("hu"@, "hu_HU"@),
        ("Hungarian"@, "hu_HU"@),
        ("hy"@, "hy_AM"@),
        ("Armenian"@, "hy_AM"@),
        ("ia"@, "ia_FR"@),
        ("id"@, "id_ID"@),
        ("Indonesian"@, "id_ID"@),
        ("ig"@, "ig_NG"@),
        ("ik"@, "ik_CA"@),
        ("is"@, "is_IS"@),
        ("Icelandic"@, "is_IS"@),
        ("it"@, "it_IT"@),
        ("Italian"@, "it_IT"@),
        ("iu"@, "iu_CA"@),
        ("Inuktitut"@, "iu_CA"@),
        ("ja"@, "ja_JP"@),
        ("Japanese"@, "ja_JP"@),
        ("jv"@, "jv_ID"@),
        ("Javanese"@, "jv_ID"@),
        ("ka"@, "ka_GE"@),
        ("Georgian"@, "ka_GE"@),
        ("kk"@, "kk_KZ"@),
        ("Kazakh"@, "kk_KZ"@),
        ("kl"@, "kl_GL"@),
        ("Greenlandic"@, "kl_GL"@),
        ("km"@, "km_KH"@),
        ("Khmer"@, "km_KH"@),
        ("kn"@, "kn_IN"@),
        ("Kannada"@, "kn_IN"@),
        ("ko"@, "ko_KR"@),
        ("Korean"@, "ko_KR"@),
        ("ks"@, "ks_IN"@),
        ("Kashmiri"@, "ks_IN"@),
        ("ku"@, "ku_TR"@),
        ("Kurdish"@, "ku_TR"@),
        ("kw"@, "kw_GB"@),
        ("ky"@, "ky_KG"@),
        ("Kirghiz"@, "ky_KG"@),
        ("la"@, "la_IT"@),
        ("Latin"@, "la_IT"@),
        ("lb"@, "lb_LU"@),
        ("lg"@, "lg_UG"@),
        ("li"@, "li_NL"@),
        ("ln"@, "ln_CD"@),
        ("lo"@, "lo_LA"@),
        ("Lao"@, "lo_LA"@),
        ("lt"@, "lt_LT"@),
        ("Lithuanian"@, "lt_LT"@),
        ("lv"@, "lv_LV"@),
        ("Latvian"@, "lv_LV"@),
        ("mg"@, "mg_MG"@),
        ("Malagasy"@, "mg_MG"@),
        ("mh"@, "mh_MH"@),
        ("mi"@, "mi_NZ"@),
        ("mk"@, "mk_MK"@),
        ("Macedonian"@, "mk_MK"@),
        ("ml"@, "ml_IN"@),
        ("Malayalam"@, "ml_IN"@),
        ("mn"@, "mn_MN"@),
        ("Mongolian"@, "mn_MN"@),
        ("mo"@, "mo_MD"@),
        ("Moldavian"@, "mo_MD"@),
        ("mr"@, "mr_IN"@),
        ("Marathi"@, "mr_IN"@),
        ("ms"@, "ms_MY"@),
        ("Malay"@, "ms_MY"@),
        ("mt"@, "mt_MT"@),
        ("Maltese"@, "mt_MT"@),
        ("my"@, "my_MM"@),
        ("Burmese"@, "my_MM"@),
        ("nb"@, "nb_NO"@),
        ("Norwegian"@, "nb_NO"@),
        ("ne"@, "ne_NP"@),
        ("Nepali"@, "ne_NP"@),
        ("nl"@, "nl_NL"@),
        ("Dutch"@, "nl_NL"@),
        ("nn"@, "nn_NO"@),
        ("Nynorsk"@, "nn_NO"@),
        ("nr"@, "nr_ZA"@),
        ("ny"@, "ny_MW"@),
        ("Nyanja"@, "ny_MW"@),
        ("oc"@, "oc_FR"@),
        ("om"@, "om_ET"@),
        ("Oromo"@, "om_ET"@),
        ("or"@, "or_IN"@),
        ("Oriya"@, "or_IN"@),
        ("os"@, "os_RU"@),
        ("pa"@, "pa_IN"@),
        ("Punjabi"@, "pa_IN"@),
        ("pl"@, "pl_PL"@),
        ("Polish"@, "pl_PL"@),
        ("ps"@, "ps_AF"@),
        ("Pashto"@, "ps_AF"@),
        ("pt"@, "pt_BR"@),
        ("Portuguese"@, "pt_BR"@),
        ("qu"@, "qu_PE"@),
        ("Quechua"@, "qu_PE"@),
        ("rn"@, "rn_BI"@),
        ("Rundi"@, "rn_BI"@),
        ("ro"@, "ro_RO"@),
        ("Romanian"@, "ro_RO"@),
        ("ru"@, "ru_RU"@),
        ("Russian"@, "ru_RU"@),
        ("rw"@, "rw_RW"@),
        ("Kinyarwanda"@, "rw_RW"@),
        ("sa"@, "sa_IN"@),
        ("Sanskrit"@, "sa_IN"@),
        ("sc"@, "sc_IT"@),
        ("sd"@, "sd_IN"@),
        ("Sindhi"@, "sd_IN"@),
        ("se"@, "se_NO"@),
        ("Sami"@, "se_NO"@),
        ("si"@, "si_LK"@),
        ("Sinhalese"@, "si_LK"@),
        ("sk"@, "sk_SK"@),
        ("Slovak"@, "sk_SK"@),
        ("sl"@, "sl_SI"@),
        ("Slovenian"@, "sl_SI"@),
        ("so"@, "so_SO"@),
        ("Somali"@, "so_SO"@),
        ("sq"@, "sq_AL"@),
        ("Albanian"@, "sq_AL"@),
        ("sr"@, "sr_CS"@),
        ("Serbian"@, "sr_CS"@),
        ("ss"@, "ss_ZA"@),
        ("st"@, "st_ZA"@),
        ("su"@, "su_ID"@),
        ("Sundanese"@, "su_ID"@),
        ("sv"@, "sv_SE"@),
        ("Swedish"@, "sv_SE"@),
        ("sw"@, "sw_TZ"@),
        ("Swahili"@, "sw_TZ"@),
        ("ta"@, "ta_IN"@),
        ("Tamil"@, "ta_IN"@),
        ("te"@, "te_IN"@),
        ("Telugu"@, "te_IN"@),
        ("tg"@, "tg_TJ"@),
        ("Tajiki"@, "tg_TJ"@),
        ("th"@, "th_TH"@),
        ("Thai"@, "th_TH"@),
        ("ti"@, "ti_ER"@),
        ("Tigrinya"@, "ti_ER"@),
        ("tk"@, "tk_TM"@),
        ("Turkmen"@, "tk_TM"@),
        ("tl"@, "tl_PH"@),
        ("Tagalog"@, "tl_PH"@),
        ("tn"@, "tn_ZA"@),
        ("to"@, "to_TO"@),
        ("Tongan"@, "to_TO"@),
        ("tr"@, "tr_TR"@),
        ("Turkish"@, "tr_TR"@),
        ("ts"@, "ts_ZA"@),
        ("tt"@, "tt_RU"@),
        ("Tatar"@, "tt_RU"@),
        ("ug"@, "ug_CN"@),
        ("Uighur"@, "ug_CN"@),
        ("uk"@, "uk_UA"@),
        ("Ukrainian"@, "uk_UA"@),
        ("ur"@, "ur_PK"@),
        ("Urdu"@, "ur_PK"@),
        ("uz"@, "uz_UZ"@),
        ("Uzbek"@, "uz_UZ"@),
        ("ve"@, "ve_ZA"@),
        ("vi"@, "vi_VN"@),
        ("Vietnamese"@, "vi_VN"@),
        ("wa"@, "wa_BE"@),
        ("wo"@, "wo_SN"@),
        ("xh"@, "xh_ZA"@),
        ("yi"@, "yi_US"@),
        ("Yiddish"@, "yi_US"@),
        ("yo"@, "yo_NG"@),
        ("zh"@, "zh_CN"@),
        ("zu"@, "zu_ZA"@),
        ("agr"@, "agr_PE"@),
        ("anp"@, "anp_IN"@),
        ("ast"@, "ast_ES"@),
        ("ayc"@, "ayc_PE"@),
        ("bem"@, "bem_ZM"@),
        ("ber"@, "ber_DZ"@),
        ("bhb"@, "bhb_IN"@),
        ("bho"@, "bho_IN"@),
        ("brx"@, "brx_IN"@),
        ("byn"@, "byn_ER"@),
        ("chr"@, "chr_US"@),
        ("crh"@, "crh_UA"@),
        ("csb"@, "csb_PL"@),
        ("doi"@, "doi_IN"@),
        ("fil"@, "fil_PH"@),
        ("fur"@, "fur_IT"@),
        ("gez"@, "gez_ER"@),
        ("grc"@, "grc_GR"@),
        ("hak"@, "hak_TW"@),
        ("hne"@, "hne_IN"@),
        ("hsb"@, "hsb_DE"@),
        ("hus"@, "hus_MX"@),
        ("kab"@, "kab_DZ"@),
        ("kok"@, "kok_IN"@),
        ("lij"@, "lij_IT"@),
        ("lzh"@, "lzh_TW"@),
        ("mag"@, "mag_IN"@),
        ("mai"@, "mai_IN"@),
        ("mhr"@, "mhr_RU"@),
        ("miq"@, "miq_NI"@),
        ("myv"@, "myv_RU"@),
        ("nah"@, "nah_MX"@),
        ("nan"@, "nan_TW"@),
        ("nds"@, "nds_DE"@),
        ("nhn"@, "nhn_MX"@),
        ("niu"@, "niu_NU"@),
        ("nso"@, "nso_ZA"@),
        ("pap"@, "pap_AW"@),
        ("quy"@, "quy_PE"@),
        ("quz"@, "quz_PE"@),
        ("raj"@, "raj_IN"@),
        ("sat"@, "sat_IN"@),
        ("sgs"@, "sgs_LT"@),
        ("shs"@, "shs_CA"@),
        ("sid"@, "sid_ET"@),
        ("son"@, "son_ML"@),
        ("szl"@, "szl_PL"@),
        ("tcy"@, "tcy_IN"@),
        ("the"@, "the_NP"@),
        ("tig"@, "tig_ER"@),
        ("unm"@, "unm_US"@),
        ("wae"@, "wae_CH"@),
        ("wal"@, "wal_ET"@),
        ("yue"@, "yue_HK"@),
        ("zh-Hant"@, "zh_TW"@),
        ("zh-Hans"@, "zh_CN"@),
        ("cmn"@, "zh_CN"@),
        ("cmn_TW"@, "zh_TW"@),
        ("cmn_CN"@, "zh_CN"@),
        ("no"@, "nb_NO"@),
        ("sr_RS"@, "sr_CS"@)
    ]
}

/// The identifier that `name` stands for in `table`, where it is listed.
pub open spec fn alias_in(table: Seq<(Seq<char>, Seq<char>)>, name: Seq<char>) -> Option<Seq<char>>
    decreases table.len(),
{
    if table.len() == 0 {
        None
    } else if table[0].0 == name {
        Some(table[0].1)
    } else {
        alias_in(table.subrange(1, table.len() as int), name)
    }
}

/// The canonical identifier of a directory name: its alias where it is
/// listed, the name itself otherwise.
pub open spec fn normalized(name: Seq<char>) -> Seq<char> {
    match alias_in(locale_aliases(), name) {
        Some(c) => c,
        None => name,
    }
}

/// The suffix of a locale directory's name.
pub open spec fn lproj_suffix() -> Seq<char> {
    ".lproj"@
}

/// `s` ends with the locale directory suffix.
pub open spec fn is_lproj_name(s: Seq<char>) -> bool {
    s.len() >= 6 && s.subrange(s.len() - 6, s.len() as int) == lproj_suffix()
}

fn alias_table() -> (r: Vec<(&'static str, &'static str)>)
    ensures
        r@.map_values(|p: (&'static str, &'static str)| (p.0@, p.1@)) == locale_aliases(),
{
    let r = vec![
        ("aa", "aa_ET"),
        ("af", "af_ZA"),
        ("Afrikaans", "af_ZA"),
        ("ak", "ak_GH"),
        ("am", "am_ET"),
        ("Amharic", "am_ET"),
        ("an", "an_ES"),
        ("ar", "ar_SA"),
        ("Arabic", "ar_SA"),
        ("as", "as_IN"),
        ("Assamese", "as_IN"),
        ("ay", "ay_PE"),
        ("Aymara", "ay_PE"),
        ("az", "az_AZ"),
        ("Azerbaijani", "az_AZ"),
        ("be", "be_BY"),
        ("Byelorussian", "be_BY"),
        ("bg", "bg_BG"),
        ("Bulgarian", "bg_BG"),
        ("bi", "bi_TV"),
        ("bm", "bm_ML"),
        ("bn", "bn_BD"),
        ("Bengali", "bn_BD"),
        ("bo", "bo_CN"),
        ("Tibetan", "bo_CN"),
        ("br", "br_FR"),
        ("Breton", "br_FR"),
        ("bs", "bs_BA"),
        ("ca", "ca_ES"),
        ("Catalan", "ca_ES"),
        ("ce", "ce_RU"),
        ("cs", "cs_CZ"),
        ("Czech", "cs_CZ"),
        ("cv", "cv_RU"),
        ("cy", "cy_GB"),
        ("Welsh", "cy_GB"),
        ("da", "da_DK"),
        ("Danish", "da_DK"),
        ("de", "de_DE"),
        ("German", "de_DE"),
        ("dv", "dv_MV"),
        ("dz", "dz_BT"),
        ("Dzongkha", "dz_BT"),
        ("el", "el_GR"),
        ("Greek", "el_GR"),
        ("en", "en_US"),
        ("English", "en_US"),
        ("eo", "eo_001"),
        ("Esperanto", "eo_001"),
        ("es", "es_ES"),
        ("Spanish", "es_ES"),
        ("et", "et_EE"),
        ("Estonian", "et_EE"),
        ("eu", "eu_ES"),
        ("Basque", "eu_ES"),
        ("fa", "fa_IR"),
        ("Farsi", "fa_IR"),
        ("ff", "ff_SN"),
        ("fi", "fi_FI"),
        ("Finnish", "fi_FI"),
        ("fo", "fo_FO"),
        ("Faroese", "fo_FO"),
        ("fr", "fr_FR"),
        ("French", "fr_FR"),
        ("fy", "fy_DE"),
        ("ga", "ga_IE"),
        ("Irish", "ga_IE"),
        ("gd", "gd_GB"),
        ("Scottish", "gd_GB"),
        ("gl", "gl_ES"),
        ("Galician", "gl_ES"),
        ("gn", "gn_PY"),
        ("Guarani", "gn_PY"),
        ("gu", "gu_IN"),
        ("Gujarati", "gu_IN"),
        ("gv", "gv_GB"),
        ("Manx", "gv_GB"),
        ("ha", "ha_NG"),
        ("he", "he_IL"),
        ("Hebrew", "he_IL"),
        ("hi", "hi_IN"),
        ("Hindi", "hi_IN"),
        ("hr", "hr_HR"),
        ("Croatian", "hr_HR"),
        ("ht", "ht_HT"),
        ("hu", "hu_HU"),
        ("Hungarian", "hu_HU"),
        ("hy", "hy_AM"),
        ("Armenian", "hy_AM"),
        ("ia", "ia_FR"),
        ("id", "id_ID"),
        ("Indonesian", "id_ID"),
        ("ig", "ig_NG"),
        ("ik", "ik_CA"),
        ("is", "is_IS"),
        ("Icelandic", "is_IS"),
        ("it", "it_IT"),
        ("Italian", "it_IT"),
        ("iu", "iu_CA"),
        ("Inuktitut", "iu_CA"),
        ("ja", "ja_JP"),
        ("Japanese", "ja_JP"),
        ("jv", "jv_ID"),
        ("Javanese", "jv_ID"),
        ("ka", "ka_GE"),
        ("Georgian", "ka_GE"),
        ("kk", "kk_KZ"),
        ("Kazakh", "kk_KZ"),
        ("kl", "kl_GL"),
        ("Greenlandic", "kl_GL"),
        ("km", "km_KH"),
        ("Khmer", "km_KH"),
        ("kn", "kn_IN"),
        ("Kannada", "kn_IN"),
        ("ko", "ko_KR"),
        ("Korean", "ko_KR"),
        ("ks", "ks_IN"),
        ("Kashmiri", "ks_IN"),
        ("ku", "ku_TR"),
        ("Kurdish", "ku_TR"),
        ("kw", "kw_GB"),
        ("ky", "ky_KG"),
        ("Kirghiz", "ky_KG"),
        ("la", "la_IT"),
        ("Latin", "la_IT"),
        ("lb", "lb_LU"),
        ("lg", "lg_UG"),
        ("li", "li_NL"),
        ("ln", "ln_CD"),
        ("lo", "lo_LA"),
        ("Lao", "lo_LA"),
        ("lt", "lt_LT"),
        ("Lithuanian", "lt_LT"),
        ("lv", "lv_LV"),
        ("Latvian", "lv_LV"),
        ("mg", "mg_MG"),
        ("Malagasy", "mg_MG"),
        ("mh", "mh_MH"),
        ("mi", "mi_NZ"),
        ("mk", "mk_MK"),
        ("Macedonian", "mk_MK"),
        ("ml", "ml_IN"),
        ("Malayalam", "ml_IN"),
        ("mn", "mn_MN"),
        ("Mongolian", "mn_MN"),
        ("mo", "mo_MD"),
        ("Moldavian", "mo_MD"),
        ("mr", "mr_IN"),
        ("Marathi", "mr_IN"),
        ("ms", "ms_MY"),
        ("Malay", "ms_MY"),
        ("mt", "mt_MT"),
        ("Maltese", "mt_MT"),
        ("my", "my_MM"),
        ("Burmese", "my_MM"),
        ("nb", "nb_NO"),
        ("Norwegian", "nb_NO"),
        ("ne", "ne_NP"),
        ("Nepali", "ne_NP"),
        ("nl", "nl_NL"),
        ("Dutch", "nl_NL"),
        ("nn", "nn_NO"),
        ("Nynorsk", "nn_NO"),
        ("nr", "nr_ZA"),
        ("ny", "ny_MW"),
        ("Nyanja", "ny_MW"),
        ("oc", "oc_FR"),
        ("om", "om_ET"),
        ("Oromo", "om_ET"),
        ("or", "or_IN"),
        ("Oriya", "or_IN"),
        ("os", "os_RU"),
        ("pa", "pa_IN"),
        ("Punjabi", "pa_IN"),
        ("pl", "pl_PL"),
        ("Polish", "pl_PL"),
        ("ps", "ps_AF"),
        ("Pashto", "ps_AF"),
        ("pt", "pt_BR"),
        ("Portuguese", "pt_BR"),
        ("qu", "qu_PE"),
        ("Quechua", "qu_PE"),
        ("rn", "rn_BI"),
        ("Rundi", "rn_BI"),
        ("ro", "ro_RO"),
        ("Romanian", "ro_RO"),
        ("ru", "ru_RU"),
        ("Russian", "ru_RU"),
        ("rw", "rw_RW"),
        ("Kinyarwanda", "rw_RW"),
        ("sa", "sa_IN"),
        ("Sanskrit", "sa_IN"),
        ("sc", "sc_IT"),
        ("sd", "sd_IN"),
        ("Sindhi", "sd_IN"),
        ("se", "se_NO"),
        ("Sami", "se_NO"),
        ("si", "si_LK"),
        ("Sinhalese", "si_LK"),
        ("sk", "sk_SK"),
        ("Slovak", "sk_SK"),
        ("sl", "sl_SI"),
        ("Slovenian", "sl_SI"),
        ("so", "so_SO"),
        ("Somali", "so_SO"),
        ("sq", "sq_AL"),
        ("Albanian", "sq_AL"),
        ("sr", "sr_CS"),
        ("Serbian", "sr_CS"),
        ("ss", "ss_ZA"),
        ("st", "st_ZA"),
        ("su", "su_ID"),
        ("Sundanese", "su_ID"),
        ("sv", "sv_SE"),
        ("Swedish", "sv_SE"),
        ("sw", "sw_TZ"),
        ("Swahili", "sw_TZ"),
        ("ta", "ta_IN"),
        ("Tamil", "ta_IN"),
        ("te", "te_IN"),
        ("Telugu", "te_IN"),
        ("tg", "tg_TJ"),
        ("Tajiki", "tg_TJ"),
        ("th", "th_TH"),
        ("Thai", "th_TH"),
        ("ti", "ti_ER"),
        ("Tigrinya", "ti_ER"),
        ("tk", "tk_TM"),
        ("Turkmen", "tk_TM"),
        ("tl", "tl_PH"),
        ("Tagalog", "tl_PH"),
        ("tn", "tn_ZA"),
        ("to", "to_TO"),
        ("Tongan", "to_TO"),
        ("tr", "tr_TR"),
        ("Turkish", "tr_TR"),
        ("ts", "ts_ZA"),
        ("tt", "tt_RU"),
        ("Tatar", "tt_RU"),
        ("ug", "ug_CN"),
        ("Uighur", "ug_CN"),
        ("uk", "uk_UA"),
        ("Ukrainian", "uk_UA"),
        ("ur", "ur_PK"),
        ("Urdu", "ur_PK"),
        ("uz", "uz_UZ"),
        ("Uzbek", "uz_UZ"),
        ("ve", "ve_ZA"),
        ("vi", "vi_VN"),
        ("Vietnamese", "vi_VN"),
        ("wa", "wa_BE"),
        ("wo", "wo_SN"),
        ("xh", "xh_ZA"),
        ("yi", "yi_US"),
        ("Yiddish", "yi_US"),
        ("yo", "yo_NG"),
        ("zh", "zh_CN"),
        ("zu", "zu_ZA"),
        ("agr", "agr_PE"),
        ("anp", "anp_IN"),
        ("ast", "ast_ES"),
        ("ayc", "ayc_PE"),
        ("bem", "bem_ZM"),
        ("ber", "ber_DZ"),
        ("bhb", "bhb_IN"),
        ("bho", "bho_IN"),
        ("brx", "brx_IN"),
        ("byn", "byn_ER"),
        ("chr", "chr_US"),
        ("crh", "crh_UA"),
        ("csb", "csb_PL"),
        ("doi", "doi_IN"),
        ("fil", "fil_PH"),
        ("fur", "fur_IT"),
        ("gez", "gez_ER"),
        ("grc", "grc_GR"),
        ("hak", "hak_TW"),
        ("hne", "hne_IN"),
        ("hsb", "hsb_DE"),
        ("hus", "hus_MX"),
        ("kab", "kab_DZ"),
        ("kok", "kok_IN"),
        ("lij", "lij_IT"),
        ("lzh", "lzh_TW"),
        ("mag", "mag_IN"),
        ("mai", "mai_IN"),
        ("mhr", "mhr_RU"),
        ("miq", "miq_NI"),
        ("myv", "myv_RU"),
        ("nah", "nah_MX"),
        ("nan", "nan_TW"),
        ("nds", "nds_DE"),
        ("nhn", "nhn_MX"),
        ("niu", "niu_NU"),
        ("nso", "nso_ZA"),
        ("pap", "pap_AW"),
        ("quy", "quy_PE"),
        ("quz", "quz_PE"),
        ("raj", "raj_IN"),
        ("sat", "sat_IN"),
        ("sgs", "sgs_LT"),
        ("shs", "shs_CA"),
        ("sid", "sid_ET"),
        ("son", "son_ML"),
        ("szl", "szl_PL"),
        ("tcy", "tcy_IN"),
        ("the", "the_NP"),
        ("tig", "tig_ER"),
        ("unm", "unm_US"),
        ("wae", "wae_CH"),
        ("wal", "wal_ET"),
        ("yue", "yue_HK"),
        ("zh-Hant", "zh_TW"),
        ("zh-Hans", "zh_CN"),
        ("cmn", "zh_CN"),
        ("cmn_TW", "zh_TW"),
        ("cmn_CN", "zh_CN"),
        ("no", "nb_NO"),
        ("sr_RS", "sr_CS")
    ];
    assert(r@.map_values(|p: (&'static str, &'static str)| (p.0@, p.1@)) =~= locale_aliases());
    r
}

/// The canonical identifier of a directory name whose `.lproj` suffix is
/// already removed: its alias where the table lists it, the name itself
/// otherwise.
pub fn normalize(name: &str) -> (r: &str)
    ensures
        r@ == normalized(name@),
{
    let table = alias_table();
    let ghost t = locale_aliases();
    let mut i: usize = 0;
    assert(t.subrange(0, t.len() as int) =~= t);
    while i < table.len()
        invariant
            table@.map_values(|p: (&'static str, &'static str)| (p.0@, p.1@)) == t,
            t == locale_aliases(),
            i <= table@.len(),
            alias_in(t, name@) == alias_in(t.subrange(i as int, t.len() as int), name@),
        decreases table@.len() - i,
    {
        let ghost rest = t.subrange(i as int, t.len() as int);
        assert(rest[0] == (table@[i as int].0@, table@[i as int].1@));
        if str_eq(table[i].0, name) {
            return table[i].1;
        }
        assert(rest.subrange(1, rest.len() as int) =~= t.subrange(i + 1, t.len() as int));
        i = i + 1;
    }
    name
}

/// The canonical locale identifier of a `*.lproj` directory, such as `en_US`
/// for `English.lproj`.
pub fn locale_id(lproj_name: &str) -> (r: &str)
    requires
        is_lproj_name(lproj_name@),
    ensures
        r@ == normalized(lproj_name@.subrange(0, lproj_name@.len() - 6)),
{
    let n = lproj_name.unicode_len();
    let name = lproj_name.substring_char(0, n - 6);
    normalize(name)
}

/// Whether a directory named `name` is a locale directory: its extension is
/// `lproj`, after a non-empty stem.
pub fn is_lproj_dir(name: &str) -> (r: bool)
    ensures
        r == (is_lproj_name(name@) && name@.len() > 6),
{
    proof {
        reveal_strlit(".lproj");
    }
    let n = name.unicode_len();
    n > 6 && str_ends_with(name, ".lproj")
}

/// The shape of every canonical identifier: a two- or three-letter language,
/// an underscore, then a region.
spec fn canonical_shape(v: Seq<char>) -> bool {
    (v.len() == 5 && v[2] == '_') || (v.len() == 6 && (v[2] == '_' || v[3] == '_'))
}

/// The aliases with the shape of a canonical identifier (`sr_RS`, `cmn_TW`
/// and `cmn_CN`) start in a way that no canonical identifier does.
spec fn alias_prefix(k: Seq<char>) -> bool {
    (k.len() == 5 && k[0] == 's' && k[1] == 'r' && k[3] == 'R') || (k.len() == 6 && k[0] == 'c'
        && k[1] == 'm')
}

proof fn lemma_identifiers_shaped()
    ensures
        forall|i: int|
            0 <= i < locale_aliases().len() ==> canonical_shape(#[trigger] locale_aliases()[i].1)
                && !alias_prefix(locale_aliases()[i].1),
{
    reveal_strlit("aa_ET");
    reveal_strlit("af_ZA");
    reveal_strlit("agr_PE");
    reveal_strlit("ak_GH");
    reveal_strlit("am_ET");
    reveal_strlit("an_ES");
    reveal_strlit("anp_IN");
    reveal_strlit("ar_SA");
    reveal_strlit("as_IN");
    reveal_strlit("ast_ES");
    reveal_strlit("ay_PE");
    reveal_strlit("ayc_PE");
    reveal_strlit("az_AZ");
    reveal_strlit("be_BY");
    reveal_strlit("bem_ZM");
    reveal_strlit("ber_DZ");
    reveal_strlit("bg_BG");
    reveal_strlit("bhb_IN");
    reveal_strlit("bho_IN");
    reveal_strlit("bi_TV");
    reveal_strlit("bm_ML");
    reveal_strlit("bn_BD");
    reveal_strlit("bo_CN");
    reveal_strlit("br_FR");
    reveal_strlit("brx_IN");
    reveal_strlit("bs_BA");
    reveal_strlit("byn_ER");
    reveal_strlit("ca_ES");
    reveal_strlit("ce_RU");
    reveal_strlit("chr_US");
    reveal_strlit("crh_UA");
    reveal_strlit("cs_CZ");
    reveal_strlit("csb_PL");
    reveal_strlit("cv_RU");
    reveal_strlit("cy_GB");
    reveal_strlit("da_DK");
    reveal_strlit("de_DE");
    reveal_strlit("doi_IN");
    reveal_strlit("dv_MV");
    reveal_strlit("dz_BT");
    reveal_strlit("el_GR");
    reveal_strlit("en_US");
    reveal_strlit("eo_001");
    reveal_strlit("es_ES");
    reveal_strlit("et_EE");
    reveal_strlit("eu_ES");
    reveal_strlit("fa_IR");
    reveal_strlit("ff_SN");
    reveal_strlit("fi_FI");
    reveal_strlit("fil_PH");
    reveal_strlit("fo_FO");
    reveal_strlit("fr_FR");
    reveal_strlit("fur_IT");
    reveal_strlit("fy_DE");
    reveal_strlit("ga_IE");
    reveal_strlit("gd_GB");
    reveal_strlit("gez_ER");
    reveal_strlit("gl_ES");
    reveal_strlit("gn_PY");
    reveal_strlit("grc_GR");
    reveal_strlit("gu_IN");
    reveal_strlit("gv_GB");
    reveal_strlit("ha_NG");
    reveal_strlit("hak_TW");
    reveal_strlit("he_IL");
    reveal_strlit("hi_IN");
    reveal_strlit("hne_IN");
    reveal_strlit("hr_HR");
    reveal_strlit("hsb_DE");
    reveal_strlit("ht_HT");
    reveal_strlit("hu_HU");
    reveal_strlit("hus_MX");
    reveal_strlit("hy_AM");
    reveal_strlit("ia_FR");
    reveal_strlit("id_ID");
    reveal_strlit("ig_NG");
    reveal_strlit("ik_CA");
    reveal_strlit("is_IS");
    reveal_strlit("it_IT");
    reveal_strlit("iu_CA");
    reveal_strlit("ja_JP");
    reveal_strlit("jv_ID");
    reveal_strlit("ka_GE");
    reveal_strlit("kab_DZ");
    reveal_strlit("kk_KZ");
    reveal_strlit("kl_GL");
    reveal_strlit("km_KH");
    reveal_strlit("kn_IN");
    reveal_strlit("ko_KR");
    reveal_strlit("kok_IN");
    reveal_strlit("ks_IN");
    reveal_strlit("ku_TR");
    reveal_strlit("kw_GB");
    reveal_strlit("ky_KG");
    reveal_strlit("la_IT");
    reveal_strlit("lb_LU");
    reveal_strlit("lg_UG");
    reveal_strlit("li_NL");
    reveal_strlit("lij_IT");
    reveal_strlit("ln_CD");
    reveal_strlit("lo_LA");
    reveal_strlit("lt_LT");
    reveal_strlit("lv_LV");
    reveal_strlit("lzh_TW");
    reveal_strlit("mag_IN");
    reveal_strlit("mai_IN");
    reveal_strlit("mg_MG");
    reveal_strlit("mh_MH");
    reveal_strlit("mhr_RU");
    reveal_strlit("mi_NZ");
    reveal_strlit("miq_NI");
    reveal_strlit("mk_MK");
    reveal_strlit("ml_IN");
    reveal_strlit("mn_MN");
    reveal_strlit("mo_MD");
    reveal_strlit("mr_IN");
    reveal_strlit("ms_MY");
    reveal_strlit("mt_MT");
    reveal_strlit("my_MM");
    reveal_strlit("myv_RU");
    reveal_strlit("nah_MX");
    reveal_strlit("nan_TW");
    reveal_strlit("nb_NO");
    reveal_strlit("nds_DE");
    reveal_strlit("ne_NP");
    reveal_strlit("nhn_MX");
    reveal_strlit("niu_NU");
    reveal_strlit("nl_NL");
    reveal_strlit("nn_NO");
    reveal_strlit("nr_ZA");
    reveal_strlit("nso_ZA");
    reveal_strlit("ny_MW");
    reveal_strlit("oc_FR");
    reveal_strlit("om_ET");
    reveal_strlit("or_IN");
    reveal_strlit("os_RU");
    reveal_strlit("pa_IN");
    reveal_strlit("pap_AW");
    reveal_strlit("pl_PL");
    reveal_strlit("ps_AF");
    reveal_strlit("pt_BR");
    reveal_strlit("qu_PE");
    reveal_strlit("quy_PE");
    reveal_strlit("quz_PE");
    reveal_strlit("raj_IN");
    reveal_strlit("rn_BI");
    reveal_strlit("ro_RO");
    reveal_strlit("ru_RU");
    reveal_strlit("rw_RW");
    reveal_strlit("sa_IN");
    reveal_strlit("sat_IN");
    reveal_strlit("sc_IT");
    reveal_strlit("sd_IN");
    reveal_strlit("se_NO");
    reveal_strlit("sgs_LT");
    reveal_strlit("shs_CA");
    reveal_strlit("si_LK");
    reveal_strlit("sid_ET");
    reveal_strlit("sk_SK");
    reveal_strlit("sl_SI");
    reveal_strlit("so_SO");
    reveal_strlit("son_ML");
    reveal_strlit("sq_AL");
    reveal_strlit("sr_CS");
    reveal_strlit("ss_ZA");
    reveal_strlit("st_ZA");
    reveal_strlit("su_ID");
    reveal_strlit("sv_SE");
    reveal_strlit("sw_TZ");
    reveal_strlit("szl_PL");
    reveal_strlit("ta_IN");
    reveal_strlit("tcy_IN");
    reveal_strlit("te_IN");
    reveal_strlit("tg_TJ");
    reveal_strlit("th_TH");
    reveal_strlit("the_NP");
    reveal_strlit("ti_ER");
    reveal_strlit("tig_ER");
    reveal_strlit("tk_TM");
    reveal_strlit("tl_PH");
    reveal_strlit("tn_ZA");
    reveal_strlit("to_TO");
    reveal_strlit("tr_TR");
    reveal_strlit("ts_ZA");
    reveal_strlit("tt_RU");
    reveal_strlit("ug_CN");
    reveal_strlit("uk_UA");
    reveal_strlit("unm_US");
    reveal_strlit("ur_PK");
    reveal_strlit("uz_UZ");
    reveal_strlit("ve_ZA");
    reveal_strlit("vi_VN");
    reveal_strlit("wa_BE");
    reveal_strlit("wae_CH");
    reveal_strlit("wal_ET");
    reveal_strlit("wo_SN");
    reveal_strlit("xh_ZA");
    reveal_strlit("yi_US");
    reveal_strlit("yo_NG");
    reveal_strlit("yue_HK");
    reveal_strlit("zh_CN");
    reveal_strlit("zh_TW");
    reveal_strlit("zu_ZA");
}

proof fn lemma_aliases_unshaped()
    ensures
        forall|j: int|
            0 <= j < locale_aliases().len() ==> !canonical_shape(#[trigger] locale_aliases()[j].0)
                || alias_prefix(locale_aliases()[j].0),
{
    reveal_strlit("aa");
    reveal_strlit("af");
    reveal_strlit("Afrikaans");
    reveal_strlit("ak");
    reveal_strlit("am");
    reveal_strlit("Amharic");
    reveal_strlit("an");
    reveal_strlit("ar");
    reveal_strlit("Arabic");
    reveal_strlit("as");
    reveal_strlit("Assamese");
    reveal_strlit("ay");
    reveal_strlit("Aymara");
    reveal_strlit("az");
    reveal_strlit("Azerbaijani");
    reveal_strlit("be");
    reveal_strlit("Byelorussian");
    reveal_strlit("bg");
    reveal_strlit("Bulgarian");
    reveal_strlit("bi");
    reveal_strlit("bm");
    reveal_strlit("bn");
    reveal_strlit("Bengali");
    reveal_strlit("bo");
    reveal_strlit("Tibetan");
    reveal_strlit("br");
    reveal_strlit("Breton");
    reveal_strlit("bs");
    reveal_strlit("ca");
    reveal_strlit("Catalan");
    reveal_strlit("ce");
    reveal_strlit("cs");
    reveal_strlit("Czech");
    reveal_strlit("cv");
    reveal_strlit("cy");
    reveal_strlit("Welsh");
    reveal_strlit("da");
    reveal_strlit("Danish");
    reveal_strlit("de");
    reveal_strlit("German");
    reveal_strlit("dv");
    reveal_strlit("dz");
    reveal_strlit("Dzongkha");
    reveal_strlit("el");
    reveal_strlit("Greek");
    reveal_strlit("en");
    reveal_strlit("English");
    reveal_strlit("eo");
    reveal_strlit("Esperanto");
    reveal_strlit("es");
    reveal_strlit("Spanish");
    reveal_strlit("et");
    reveal_strlit("Estonian");
    reveal_strlit("eu");
    reveal_strlit("Basque");
    reveal_strlit("fa");
    reveal_strlit("Farsi");
    reveal_strlit("ff");
    reveal_strlit("fi");
    reveal_strlit("Finnish");
    reveal_strlit("fo");
    reveal_strlit("Faroese");
    reveal_strlit("fr");
    reveal_strlit("French");
    reveal_strlit("fy");
    reveal_strlit("ga");
    reveal_strlit("Irish");
    reveal_strlit("gd");
    reveal_strlit("Scottish");
    reveal_strlit("gl");
    reveal_strlit("Galician");
    reveal_strlit("gn");
    reveal_strlit("Guarani");
    reveal_strlit("gu");
    reveal_strlit("Gujarati");
    reveal_strlit("gv");
    reveal_strlit("Manx");
    reveal_strlit("ha");
    reveal_strlit("he");
    reveal_strlit("Hebrew");
    reveal_strlit("hi");
    reveal_strlit("Hindi");
    reveal_strlit("hr");
    reveal_strlit("Croatian");
    reveal_strlit("ht");
    reveal_strlit("hu");
    reveal_strlit("Hungarian");
    reveal_strlit("hy");
    reveal_strlit("Armenian");
    reveal_strlit("ia");
    reveal_strlit("id");
    reveal_strlit("Indonesian");
    reveal_strlit("ig");
    reveal_strlit("ik");
    reveal_strlit("is");
    reveal_strlit("Icelandic");
    reveal_strlit("it");
    reveal_strlit("Italian");
    reveal_strlit("iu");
    reveal_strlit("Inuktitut");
    reveal_strlit("ja");
    reveal_strlit("Japanese");
    reveal_strlit("jv");
    reveal_strlit("Javanese");
    reveal_strlit("ka");
    reveal_strlit("Georgian");
    reveal_strlit("kk");
    reveal_strlit("Kazakh");
    reveal_strlit("kl");
    reveal_strlit("Greenlandic");
    reveal_strlit("km");
    reveal_strlit("Khmer");
    reveal_strlit("kn");
    reveal_strlit("Kannada");
    reveal_strlit("ko");
    reveal_strlit("Korean");
    reveal_strlit("ks");
    reveal_strlit("Kashmiri");
    reveal_strlit("ku");
    reveal_strlit("Kurdish");
    reveal_strlit("kw");
    reveal_strlit("ky");
    reveal_strlit("Kirghiz");
    reveal_strlit("la");
    reveal_strlit("Latin");
    reveal_strlit("lb");
    reveal_strlit("lg");
    reveal_strlit("li");
    reveal_strlit("ln");
    reveal_strlit("lo");
    reveal_strlit("Lao");
    reveal_strlit("lt");
    reveal_strlit("Lithuanian");
    reveal_strlit("lv");
    reveal_strlit("Latvian");
    reveal_strlit("mg");
    reveal_strlit("Malagasy");
    reveal_strlit("mh");
    reveal_strlit("mi");
    reveal_strlit("mk");
    reveal_strlit("Macedonian");
    reveal_strlit("ml");
    reveal_strlit("Malayalam");
    reveal_strlit("mn");
    reveal_strlit("Mongolian");
    reveal_strlit("mo");
    reveal_strlit("Moldavian");
    reveal_strlit("mr");
    reveal_strlit("Marathi");
    reveal_strlit("ms");
    reveal_strlit("Malay");
    reveal_strlit("mt");
    reveal_strlit("Maltese");
    reveal_strlit("my");
    reveal_strlit("Burmese");
    reveal_strlit("nb");
    reveal_strlit("Norwegian");
    reveal_strlit("ne");
    reveal_strlit("Nepali");
    reveal_strlit("nl");
    reveal_strlit("Dutch");
    reveal_strlit("nn");
    reveal_strlit("Nynorsk");
    reveal_strlit("nr");
    reveal_strlit("ny");
    reveal_strlit("Nyanja");
    reveal_strlit("oc");
    reveal_strlit("om");
    reveal_strlit("Oromo");
    reveal_strlit("or");
    reveal_strlit("Oriya");
    reveal_strlit("os");
    reveal_strlit("pa");
    reveal_strlit("Punjabi");
    reveal_strlit("pl");
    reveal_strlit("Polish");
    reveal_strlit("ps");
    reveal_strlit("Pashto");
    reveal_strlit("pt");
    reveal_strlit("Portuguese");
    reveal_strlit("qu");
    reveal_strlit("Quechua");
    reveal_strlit("rn");
    reveal_strlit("Rundi");
    reveal_strlit("ro");
    reveal_strlit("Romanian");
    reveal_strlit("ru");
    reveal_strlit("Russian");
    reveal_strlit("rw");
    reveal_strlit("Kinyarwanda");
    reveal_strlit("sa");
    reveal_strlit("Sanskrit");
    reveal_strlit("sc");
    reveal_strlit("sd");
    reveal_strlit("Sindhi");
    reveal_strlit("se");
    reveal_strlit("Sami");
    reveal_strlit("si");
    reveal_strlit("Sinhalese");
    reveal_strlit("sk");
    reveal_strlit("Slovak");
    reveal_strlit("sl");
    reveal_strlit("Slovenian");
    reveal_strlit("so");
    reveal_strlit("Somali");
    reveal_strlit("sq");
    reveal_strlit("Albanian");
    reveal_strlit("sr");
    reveal_strlit("Serbian");
    reveal_strlit("ss");
    reveal_strlit("st");
    reveal_strlit("su");
    reveal_strlit("Sundanese");
    reveal_strlit("sv");
    reveal_strlit("Swedish");
    reveal_strlit("sw");
    reveal_strlit("Swahili");
    reveal_strlit("ta");
    reveal_strlit("Tamil");
    reveal_strlit("te");
    reveal_strlit("Telugu");
    reveal_strlit("tg");
    reveal_strlit("Tajiki");
    reveal_strlit("th");
    reveal_strlit("Thai");
    reveal_strlit("ti");
    reveal_strlit("Tigrinya");
    reveal_strlit("tk");
    reveal_strlit("Turkmen");
    reveal_strlit("tl");
    reveal_strlit("Tagalog");
    reveal_strlit("tn");
    reveal_strlit("to");
    reveal_strlit("Tongan");
    reveal_strlit("tr");
    reveal_strlit("Turkish");
    reveal_strlit("ts");
    reveal_strlit("tt");
    reveal_strlit("Tatar");
    reveal_strlit("ug");
    reveal_strlit("Uighur");
    reveal_strlit("uk");
    reveal_strlit("Ukrainian");
    reveal_strlit("ur");
    reveal_strlit("Urdu");
    reveal_strlit("uz");
    reveal_strlit("Uzbek");
    reveal_strlit("ve");
    reveal_strlit("vi");
    reveal_strlit("Vietnamese");
    reveal_strlit("wa");
    reveal_strlit("wo");
    reveal_strlit("xh");
    reveal_strlit("yi");
    reveal_strlit("Yiddish");
    reveal_strlit("yo");
    reveal_strlit("zh");
    reveal_strlit("zu");
    reveal_strlit("agr");
    reveal_strlit("anp");
    reveal_strlit("ast");
    reveal_strlit("ayc");
    reveal_strlit("bem");
    reveal_strlit("ber");
    reveal_strlit("bhb");
    reveal_strlit("bho");
    reveal_strlit("brx");
    reveal_strlit("byn");
    reveal_strlit("chr");
    reveal_strlit("crh");
    reveal_strlit("csb");
    reveal_strlit("doi");
    reveal_strlit("fil");
    reveal_strlit("fur");
    reveal_strlit("gez");
    reveal_strlit("grc");
    reveal_strlit("hak");
    reveal_strlit("hne");
    reveal_strlit("hsb");
    reveal_strlit("hus");
    reveal_strlit("kab");
    reveal_strlit("kok");
    reveal_strlit("lij");
    reveal_strlit("lzh");
    reveal_strlit("mag");
    reveal_strlit("mai");
    reveal_strlit("mhr");
    reveal_strlit("miq");
    reveal_strlit("myv");
    reveal_strlit("nah");
    reveal_strlit("nan");
    reveal_strlit("nds");
    reveal_strlit("nhn");
    reveal_strlit("niu");
    reveal_strlit("nso");
    reveal_strlit("pap");
    reveal_strlit("quy");
    reveal_strlit("quz");
    reveal_strlit("raj");
    reveal_strlit("sat");
    reveal_strlit("sgs");
    reveal_strlit("shs");
    reveal_strlit("sid");
    reveal_strlit("son");
    reveal_strlit("szl");
    reveal_strlit("tcy");
    reveal_strlit("the");
    reveal_strlit("tig");
    reveal_strlit("unm");
    reveal_strlit("wae");
    reveal_strlit("wal");
    reveal_strlit("yue");
    reveal_strlit("zh-Hant");
    reveal_strlit("zh-Hans");
    reveal_strlit("cmn");
    reveal_strlit("cmn_TW");
    reveal_strlit("cmn_CN");
    reveal_strlit("no");
    reveal_strlit("sr_RS");
}

/// No canonical identifier of the table is itself listed as an alias.
proof fn lemma_table_closed()
    ensures
        forall|i: int, j: int|
            0 <= i < locale_aliases().len() && 0 <= j < locale_aliases().len() ==> #[trigger] locale_aliases()[j].0
                != #[trigger] locale_aliases()[i].1,
{
    lemma_identifiers_shaped();
    lemma_aliases_unshaped();
}

proof fn lemma_alias_in(table: Seq<(Seq<char>, Seq<char>)>, name: Seq<char>)
    ensures
        alias_in(table, name) is None <==> forall|j: int| 0 <= j < table.len() ==> table[j].0 != name,
        alias_in(table, name) matches Some(c) ==> exists|i: int| 0 <= i < table.len() && table[i].1 == c,
    decreases table.len(),
{
    if table.len() > 0 {
        let rest = table.subrange(1, table.len() as int);
        lemma_alias_in(rest, name);
        if table[0].0 != name {
            assert forall|j: int| 0 <= j < rest.len() implies rest[j] == table[j + 1] by {}
            if exists|j: int| 0 <= j < table.len() && table[j].0 == name {
                let j = choose|j: int| 0 <= j < table.len() && table[j].0 == name;
                assert(rest[j - 1].0 == name);
            }
            if let Some(c) = alias_in(rest, name) {
                let i = choose|i: int| 0 <= i < rest.len() && rest[i].1 == c;
                assert(table[i + 1].1 == c);
            }
        }
    }
}

/// Every alias and its canonical identifier normalize alike: normalizing
/// an identifier that is already canonical leaves it as it is.
pub proof fn lemma_normalize_idempotent(name: Seq<char>)
    ensures
        normalized(normalized(name)) == normalized(name),
{
    let t = locale_aliases();
    lemma_alias_in(t, name);
    if let Some(c) = alias_in(t, name) {
        let i = choose|i: int| 0 <= i < t.len() && t[i].1 == c;
        lemma_table_closed();
        lemma_alias_in(t, c);
        assert forall|j: int| 0 <= j < t.len() implies t[j].0 != c by {
            assert(t[j].0 != t[i].1);
        }
    }
}

} // verus!
