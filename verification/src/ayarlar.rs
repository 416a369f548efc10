use vstd::prelude::*;

verus! {

/// Tek bir Discord mesajına giden en çok karakter.
pub const MESAJ_SINIRI: usize = 1900;

/// Bir turda gönderilen en çok satır (ayrı mesaj).
pub const PATLAMA_SINIRI: usize = 4;

/// Açılan sohbetin tohumlandığı son kanal satırı sayısı.
pub const SOHBET_TOHUM: usize = 10;

/// Kanal başına saklanan son satır sayısı.
pub const KANAL_GECMIS: usize = 100;

/// Ham bağlam penceresi: hafızada tutulan son mesaj sayısı.
pub const HAFIZA_BOYU: usize = 2000;

/// Akış sürerken son yarım satırın görünmesi için gereken en az karakter.
pub const YARIM_SATIR_ESIGI: usize = 12;

/// Açık sohbetin modele giden geçmişinde tutulan en çok mesaj.
pub const SOHBET_BOYU: usize = 40;

/// Aynı kanalda iki isteklilik değerlendirmesi arasındaki en kısa süre (saniye).
pub const DEGERLENDIRME_ARALIGI: u64 = 120;

/// Sohbete katılmak için gereken isteklilik puanı (0-10), evreye göre oynar.
pub const ISTEK_ESIGI: i32 = 6;

/// Akış sürerken iki mesaj düzenlemesi arasındaki en kısa süre (milisaniye).
pub const AKIS_DUZENLEME_MS: u64 = 1200;

/// Model isteğinin ilk denemeden sonraki yeniden deneme sayısı.
pub const AI_YENIDEN_DENEME: u32 = 2;

/// Reasoning kapatılamayan modelde cevap bütçesinin en az değeri.
pub const REASONING_BUTCE_TABANI: u32 = 1500;

/// Reasoning'i kapatılamayan modelde akışlı cevabın bütçe tabanı.
pub const REASONING_ZORUNLU_TABAN: u32 = 1500;

/// OpenRouter'ın sohbet adresi.
pub const OPENROUTER_ADRES: &'static str = "https://openrouter.ai/api/v1/chat/completions";

/// Mistral'in sohbet adresi.
pub const MISTRAL_ADRES: &'static str = "https://api.mistral.ai/v1/chat/completions";

/// OpenRouter'da `MODEL` verilmezse kullanılan model.
pub const OPENROUTER_MODEL: &'static str = "z-ai/glm-5.3-flash";

/// Mistral'de `MODEL` verilmezse kullanılan model.
pub const MISTRAL_MODEL: &'static str = "mistral-large-latest";

/// Sunucuya ilk girişte okunan geçmişin gün sayısı.
pub const GECMIS_GUN: i64 = 14;

/// Sessiz kalan sohbetin kapandığı süre (saniye).
pub const SOHBET_ZAMAN_ASIMI: u64 = 1800;

/// Hack şakasının sürdüğü cevap sayısı.
pub const HACK_MESAJI: u32 = 3;

/// Atılan habere yorum beklenen süre (saniye).
pub const YORUM_SURESI: u64 = 7200;

} // verus!
