use counterfire2::audio::{next_slot, AudioPlayer, MAX_AUDIO_THREADS};

#[test]
fn at_most_eight_sounds_at_once() {
    let p = AudioPlayer::new();
    let shared = p.share();
    for i in 0..MAX_AUDIO_THREADS {
        assert_eq!(p.acquire_thread_slot(), Ok(i));
    }
    assert_eq!(shared.acquire_thread_slot(), Err(MAX_AUDIO_THREADS));
    shared.release_thread_slot();
    assert_eq!(p.acquire_thread_slot(), Ok(MAX_AUDIO_THREADS - 1));
    assert_eq!(p.acquire_thread_slot(), Err(MAX_AUDIO_THREADS));
    assert_eq!(next_slot(7, 8), Some(8));
    assert_eq!(next_slot(8, 8), None);
}
